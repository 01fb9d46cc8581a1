//! The aggregation engine: the registry of providers, the tick that
//! queries them, and the framing of the stream.

use vstd::prelude::*;
use vstd::string::*;
use crate::error::{diagnostic, BarError, BarErrorView};
use crate::json::{array_json, array_text, rendered};
use crate::message::{
    block_json, standard_header, standard_header_text, version_fields, ModuleOutput,
    ModuleOutputView, Version,
};
use crate::module::{Module, Outcome};

verus! {

/// The seconds between the end of one tick and the start of the next.
pub const TICK_SECONDS: u64 = 1;

/// Where the stream stands.
#[derive(Clone, Copy, Debug, PartialEq, Eq, Structural)]
pub enum Phase {
    /// Nothing has been written.
    Uninitialized,
    /// The header and the opening bracket have been written, no tick yet.
    HeaderEmitted,
    /// At least one tick has been written.
    Ticking,
    /// A tick failed: the stream has ended.
    Aborted,
}

/// Why the stream ended: the provider at fault and its error.
#[derive(Clone, Debug, PartialEq, Eq)]
pub struct Failure {
    pub provider: String,
    pub error: BarError,
}

/// The mathematical value of a [`Failure`].
pub struct FailureView {
    pub provider: Seq<char>,
    pub error: BarErrorView,
}

impl View for Failure {
    type V = FailureView;

    open spec fn view(&self) -> FailureView {
        FailureView { provider: self.provider@, error: self.error@ }
    }
}

/// The words for a failure: the provider's name, a colon and a space,
/// then the diagnostic of its error.
pub open spec fn failure_text(failure: FailureView) -> Seq<char> {
    failure.provider + ": "@ + diagnostic(failure.error)
}

impl Failure {
    /// The one-line diagnostic of this failure, which names the provider
    /// and the cause.
    pub fn describe(&self) -> (r: String)
        ensures
            r@ == failure_text(self@),
    {
        let mut out = self.provider.clone();
        out.append(": ");
        let cause = self.error.describe();
        out.append(cause.as_str());
        out
    }
}

/// What the caller is to do after a step of the engine.
#[derive(Debug, PartialEq, Eq)]
pub enum Action {
    /// Write these lines, in this order.
    Emit(Vec<String>),
    /// Write nothing, report the failure and stop.
    Abort(Failure),
    /// The stream has ended before: there is nothing to do.
    Halt,
}

/// The blocks of one tick, in the order in which they are written.
pub type Tick = Seq<ModuleOutputView>;

/// The JSON texts of the blocks of a tick.
pub open spec fn block_texts(blocks: Tick) -> Seq<Seq<char>> {
    Seq::new(blocks.len(), |i: int| block_json(blocks[i]))
}

/// The line of a tick: the array of its blocks as compact JSON.
pub open spec fn tick_line(blocks: Tick) -> Seq<char> {
    array_json(block_texts(blocks))
}

/// The first line of the stream: the header.
pub open spec fn header_line() -> Seq<char> {
    rendered(version_fields(standard_header())).unwrap()
}

/// The second line of the stream: the bracket that opens the array of
/// ticks, which is never closed.
pub open spec fn opening_line() -> Seq<char> {
    "["@
}

/// The line after each tick: the comma that separates it from the next.
pub open spec fn separator_line() -> Seq<char> {
    ","@
}

/// The lines of a stream in which these ticks have been written: the
/// header, the opening bracket, and for each tick its line and a
/// separator.
pub open spec fn stream(ticks: Seq<Tick>) -> Seq<Seq<char>>
    decreases ticks.len(),
{
    if ticks.len() == 0 {
        seq![header_line(), opening_line()]
    } else {
        stream(ticks.drop_last()).push(tick_line(ticks.last())).push(separator_line())
    }
}

/// Whether the providers have the same names after as before.
pub open spec fn same_names(before: Seq<Box<dyn Module>>, after: Seq<Box<dyn Module>>) -> bool {
    &&& after.len() == before.len()
    &&& forall|i: int| 0 <= i < after.len() ==> #[trigger] after[i].label() == before[i].label()
}

/// Whether the blocks are what the providers handed back, one each, the
/// provider registered last first.
pub open spec fn all_answered(after: Seq<Box<dyn Module>>, blocks: Tick) -> bool {
    &&& blocks.len() == after.len()
    &&& forall|i: int|
        0 <= i < blocks.len() ==> after[after.len() - 1 - i].yields(Ok(#[trigger] blocks[i]))
}

/// Whether `outcome` is what the provider `i` has just handed back.
pub open spec fn gives(providers: Seq<Box<dyn Module>>, i: int, outcome: Outcome) -> bool {
    providers[i].yields(outcome)
}

/// Whether the provider `i` has handed back a block.
pub open spec fn answered(providers: Seq<Box<dyn Module>>, i: int) -> bool {
    exists|b: ModuleOutputView| #[trigger] gives(providers, i, Ok(b))
}

/// Whether the query stopped at the provider `j` with this failure: the
/// providers registered after it had handed back their blocks, it handed
/// back the error, and those registered before it were not queried.
pub open spec fn failed_at(
    before: Seq<Box<dyn Module>>,
    after: Seq<Box<dyn Module>>,
    j: int,
    failure: FailureView,
) -> bool {
    &&& 0 <= j < after.len()
    &&& after[j].yields(Err(failure.error))
    &&& failure.provider == after[j].label()
    &&& forall|i: int| j < i < after.len() ==> #[trigger] answered(after, i)
    &&& forall|i: int| #![trigger after[i]] 0 <= i < j ==> after[i] == before[i]
}

/// Whether a tick that found the providers as `before` failed and left
/// them as `after`: the query stopped at one of them with this failure.
pub open spec fn tick_failed(
    before: Seq<Box<dyn Module>>,
    after: Seq<Box<dyn Module>>,
    failure: FailureView,
) -> bool {
    exists|j: int| failed_at(before, after, j, failure)
}

/// Whether the tick holds what the providers handed back in it, one block
/// each and the provider registered last first: the providers as they
/// stood after that tick, under the names that `names` gives them.
pub open spec fn tick_answered(names: Seq<Box<dyn Module>>, tick: Tick) -> bool {
    exists|mods: Seq<Box<dyn Module>>|
        same_names(names, mods) && #[trigger] all_answered(mods, tick)
}

/// Whether each tick from the place `from` on holds what the providers
/// handed back in it.
pub open spec fn answered_from(names: Seq<Box<dyn Module>>, ticks: Seq<Tick>, from: int) -> bool {
    forall|k: int| from <= k < ticks.len() ==> tick_answered(names, #[trigger] ticks[k])
}

/// Whether a run that found the providers as `start` and wrote the ticks
/// `written` then ended on a failing tick that left them as `after`. The
/// failing tick found the providers as the last written tick had left
/// them, or as the run found them where none was written; it queried them
/// from the one registered last to the one that failed, and no further.
pub open spec fn run_failed(
    start: Seq<Box<dyn Module>>,
    written: Seq<Tick>,
    after: Seq<Box<dyn Module>>,
    failure: FailureView,
) -> bool {
    exists|before: Seq<Box<dyn Module>>|
        {
            &&& #[trigger] tick_failed(before, after, failure)
            &&& same_names(start, before)
            &&& written.len() == 0 ==> before == start
            &&& written.len() > 0 ==> all_answered(before, written.last())
        }
}

/// The line of a tick: the array of its blocks as compact JSON.
pub fn tick_text(blocks: &Vec<ModuleOutput>) -> (r: String)
    ensures
        r@ == tick_line(blocks.deep_view()),
{
    let mut texts: Vec<String> = Vec::new();
    let mut i: usize = 0;
    while i < blocks.len()
        invariant
            i <= blocks.len(),
            texts.len() == i,
            forall|k: int| 0 <= k < i ==> #[trigger] texts[k]@ == block_json(blocks[k]@),
        decreases blocks.len() - i,
    {
        texts.push(blocks[i].to_json());
        i += 1;
    }
    proof {
        assert(texts.deep_view() =~= block_texts(blocks.deep_view()));
    }
    array_text(&texts)
}

/// The engine: the providers in the order of their registration, and
/// where the stream stands.
pub struct Bar {
    registered_modules: Vec<Box<dyn Module>>,
    phase: Phase,
    emitted: Ghost<Seq<Tick>>,
}

/// What a bounded run of the engine has written, and the failure that
/// ended it, if one did.
#[derive(Debug, PartialEq, Eq)]
pub struct Report {
    pub lines: Vec<String>,
    pub failure: Option<Failure>,
}

impl Bar {
    /// The providers, in the order of their registration.
    pub closed spec fn modules(&self) -> Seq<Box<dyn Module>> {
        self.registered_modules@
    }

    /// Where the stream stands.
    pub closed spec fn spec_phase(&self) -> Phase {
        self.phase
    }

    /// The ticks written so far, the first one first.
    pub closed spec fn ticks(&self) -> Seq<Tick> {
        self.emitted@
    }

    /// Every line written so far, the first one first.
    pub open spec fn transcript(&self) -> Seq<Seq<char>> {
        if self.phase() == Phase::Uninitialized {
            Seq::empty()
        } else {
            stream(self.ticks())
        }
    }

    /// The engine is well formed: ticks have been written exactly in the
    /// phase `Ticking` or after it, and each of them holds one block for
    /// each provider.
    pub open spec fn wf(&self) -> bool {
        &&& (self.phase() == Phase::Uninitialized || self.phase() == Phase::HeaderEmitted)
            ==> self.ticks().len() == 0
        &&& self.phase() == Phase::Ticking ==> self.ticks().len() > 0
        &&& forall|k: int|
            #![trigger self.ticks()[k]]
            0 <= k < self.ticks().len() ==> self.ticks()[k].len() == self.modules().len()
    }

    /// An engine without providers that has written nothing.
    pub fn new() -> (r: Bar)
        ensures
            r.wf(),
            r.modules().len() == 0,
            r.phase() == Phase::Uninitialized,
    {
        Bar { registered_modules: Vec::new(), phase: Phase::Uninitialized, emitted: Ghost(Seq::empty()) }
    }

    /// Where the stream stands.
    #[verifier::when_used_as_spec(spec_phase)]
    pub fn phase(&self) -> (r: Phase)
        ensures
            r == self.phase(),
    {
        self.phase
    }

    /// The seconds to let pass before the next step: one after a tick,
    /// none otherwise.
    pub fn pause_seconds(&self) -> (r: u64)
        ensures
            r == (if self.phase() == Phase::Ticking {
                TICK_SECONDS
            } else {
                0
            }),
    {
        match self.phase {
            Phase::Ticking => TICK_SECONDS,
            _ => 0,
        }
    }

    /// The number of providers.
    pub fn len(&self) -> (r: usize)
        ensures
            r == self.modules().len(),
    {
        self.registered_modules.len()
    }

    /// Registers a provider behind those registered before. Names need
    /// not differ. The registry is filled before the stream starts.
    pub fn register(&mut self, bar_mod: Box<dyn Module>)
        requires
            old(self).wf(),
            old(self).phase() == Phase::Uninitialized,
        ensures
            final(self).wf(),
            final(self).modules() == old(self).modules().push(bar_mod),
            final(self).modules().len() == old(self).modules().len() + 1,
            forall|i: int|
                0 <= i < old(self).modules().len() ==> #[trigger] final(self).modules()[i] == old(
                    self,
                ).modules()[i],
            final(self).phase() == Phase::Uninitialized,
    {
        proof {
            lemma_push(self.registered_modules@, bar_mod);
        }
        self.registered_modules.push(bar_mod);
    }

    /// Queries the providers once, the one registered last first, and
    /// stops at the first that fails.
    ///
    /// Where all answer, the result is their blocks in the order of the
    /// query. Where one fails, the result is its error under its name: the
    /// blocks gathered before are dropped and the providers registered
    /// before it are not queried. Nothing is written.
    pub fn poll(&mut self) -> (r: Result<Vec<ModuleOutput>, Failure>)
        ensures
            final(self).phase() == old(self).phase(),
            final(self).ticks() == old(self).ticks(),
            same_names(old(self).modules(), final(self).modules()),
            match r {
                Ok(blocks) => all_answered(final(self).modules(), blocks.deep_view()),
                Err(failure) => exists|j: int|
                    failed_at(old(self).modules(), final(self).modules(), j, failure@),
            },
    {
        let n: usize = self.registered_modules.len();
        let mut blocks: Vec<ModuleOutput> = Vec::new();
        let mut i: usize = n;
        while i > 0
            invariant
                i <= n,
                self.registered_modules@.len() == n,
                old(self).registered_modules@.len() == n,
                self.phase == old(self).phase,
                self.emitted@ == old(self).emitted@,
                blocks.len() == n - i,
                forall|k: int|
                    0 <= k < n ==> #[trigger] self.registered_modules@[k].label() == old(
                        self,
                    ).registered_modules@[k].label(),
                forall|k: int|
                    #![trigger self.registered_modules@[k]]
                    0 <= k < i ==> self.registered_modules@[k] == old(self).registered_modules@[k],
                forall|k: int|
                    0 <= k < blocks.len() ==> self.registered_modules@[n - 1 - k].yields(
                        Ok(#[trigger] blocks.deep_view()[k]),
                    ),
            decreases i,
        {
            i -= 1;
            let ghost before = self.registered_modules@;
            let ghost gathered = blocks.deep_view();
            let outcome = self.registered_modules[i].output();
            proof {
                assert(forall|k: int|
                    0 <= k < n && k != i ==> self.registered_modules@[k] == before[k]);
            }
            match outcome {
                Ok(block) => {
                    let ghost answer = block@;
                    blocks.push(block);
                    proof {
                        assert(blocks.deep_view() =~= gathered.push(answer));
                        assert forall|k: int| 0 <= k < blocks.len() implies self.registered_modules@[n
                            - 1 - k].yields(Ok(#[trigger] blocks.deep_view()[k])) by {
                            if k < gathered.len() {
                                assert(self.registered_modules@[n - 1 - k] == before[n - 1 - k]);
                                assert(before[n - 1 - k].yields(Ok(gathered[k])));
                            }
                        }
                    }
                },
                Err(error) => {
                    let name = self.registered_modules[i].name();
                    let failure = Failure { provider: String::from_str(name), error };
                    proof {
                        let ghost after = self.registered_modules@;
                        assert forall|k: int| i < k < after.len() implies #[trigger] answered(
                            after,
                            k,
                        ) by {
                            let ghost b = gathered[n - 1 - k];
                            assert(before[n - 1 - (n - 1 - k)].yields(Ok(b)));
                            assert(after[k] == before[k]);
                            assert(gives(after, k, Ok(b)));
                        }
                        assert(failed_at(old(self).modules(), self.modules(), i as int, failure@));
                    }
                    return Err(failure);
                },
            }
        }
        Ok(blocks)
    }

    /// Takes the stream one step further and says what is to be written.
    ///
    /// The first step writes the header and the opening bracket. Each
    /// later step is a tick: it queries the providers and writes the line
    /// of their blocks and a separator, or, where a provider fails, writes
    /// nothing and ends the stream. After that every step does nothing.
    pub fn step(&mut self) -> (r: Action)
        requires
            old(self).wf(),
        ensures
            final(self).wf(),
            same_names(old(self).modules(), final(self).modules()),
            old(self).transcript().is_prefix_of(final(self).transcript()),
            match old(self).phase() {
                Phase::Uninitialized => opened(*old(self), *final(self), r),
                Phase::Aborted => halted(*old(self), *final(self), r),
                _ => ticked(*old(self), *final(self), r),
            },
    {
        match self.phase {
            Phase::Uninitialized => {
                let mut lines: Vec<String> = Vec::new();
                lines.push(Version::default().to_json());
                lines.push(String::from_str("["));
                self.phase = Phase::HeaderEmitted;
                proof {
                    assert(lines.deep_view() =~= seq![header_line(), opening_line()]);
                }
                let action = Action::Emit(lines);
                assert(opened(*old(self), *self, action));
                action
            },
            Phase::Aborted => {
                let action = Action::Halt;
                assert(halted(*old(self), *self, action));
                action
            },
            _ => {
                let ghost before = self.emitted@;
                match self.poll() {
                    Err(failure) => {
                        let ghost j = choose|j: int|
                            failed_at(old(self).modules(), self.modules(), j, failure@);
                        self.phase = Phase::Aborted;
                        assert(failed_at(old(self).modules(), self.modules(), j, failure@));
                        let action = Action::Abort(failure);
                        assert(ticked(*old(self), *self, action));
                        action
                    },
                    Ok(blocks) => {
                        let mut lines: Vec<String> = Vec::new();
                        lines.push(tick_text(&blocks));
                        lines.push(String::from_str(","));
                        self.phase = Phase::Ticking;
                        proof {
                            self.emitted@ = before.push(blocks.deep_view());
                            assert(self.emitted@.drop_last() =~= before);
                            assert(lines.deep_view() =~= seq![
                                tick_line(blocks.deep_view()),
                                separator_line(),
                            ]);
                        }
                        let action = Action::Emit(lines);
                        assert(ticked(*old(self), *self, action));
                        assert(old(self).transcript().is_prefix_of(self.transcript()));
                        action
                    },
                }
            },
        }
    }

    /// Runs the stream for at most `ticks` ticks and gathers what was
    /// written: the header and the opening bracket first, if the stream
    /// had not started, then for each tick the line of the blocks that
    /// the providers handed back in it and a separator. The run ends at
    /// the first tick in which a provider fails: that tick writes nothing,
    /// the providers registered before the failing one are not queried,
    /// and the failure is returned. On a stream that has ended before, the
    /// run does nothing and queries nobody.
    pub fn run(&mut self, ticks: usize) -> (r: Report)
        requires
            old(self).wf(),
        ensures
            final(self).wf(),
            same_names(old(self).modules(), final(self).modules()),
            old(self).transcript() + r.lines.deep_view() == final(self).transcript(),
            old(self).ticks().is_prefix_of(final(self).ticks()),
            answered_from(old(self).modules(), final(self).ticks(), old(self).ticks().len() as int),
            old(self).phase() == Phase::Aborted ==> {
                &&& r.failure is None
                &&& final(self).phase() == Phase::Aborted
                &&& final(self).ticks() == old(self).ticks()
                &&& final(self).modules() == old(self).modules()
            },
            old(self).phase() != Phase::Aborted ==> match r.failure {
                None => {
                    &&& final(self).phase() != Phase::Aborted
                    &&& final(self).phase() != Phase::Uninitialized
                    &&& final(self).ticks().len() == old(self).ticks().len() + ticks
                    &&& ticks == 0 ==> final(self).modules() == old(self).modules()
                    &&& ticks > 0 ==> all_answered(final(self).modules(), final(self).ticks().last())
                },
                Some(failure) => {
                    &&& final(self).phase() == Phase::Aborted
                    &&& final(self).ticks().len() < old(self).ticks().len() + ticks
                    &&& run_failed(
                        old(self).modules(),
                        final(self).ticks().subrange(
                            old(self).ticks().len() as int,
                            final(self).ticks().len() as int,
                        ),
                        final(self).modules(),
                        failure@,
                    )
                },
            },
    {
        let mut lines: Vec<String> = Vec::new();
        if self.phase == Phase::Aborted {
            assert(self.transcript() + lines.deep_view() =~= self.transcript());
            return Report { lines, failure: None };
        }
        if self.phase == Phase::Uninitialized {
            match self.step() {
                Action::Emit(mut opening) => {
                    lines.append(&mut opening);
                },
                _ => {},
            }
        }
        assert(old(self).transcript() + lines.deep_view() =~= self.transcript());
        let ghost first = old(self).ticks().len() as int;
        let mut done: usize = 0;
        while done < ticks
            invariant
                done <= ticks,
                old(self).phase() != Phase::Aborted,
                self.wf(),
                self.phase() == Phase::HeaderEmitted || self.phase() == Phase::Ticking,
                same_names(old(self).modules(), self.modules()),
                old(self).transcript() + lines.deep_view() == self.transcript(),
                old(self).ticks().is_prefix_of(self.ticks()),
                first == old(self).ticks().len(),
                self.ticks().len() == first + done,
                answered_from(old(self).modules(), self.ticks(), first),
                done == 0 ==> self.modules() == old(self).modules(),
                done > 0 ==> all_answered(self.modules(), self.ticks().last()),
            decreases ticks - done,
        {
            let ghost before = *self;
            let ghost written = lines.deep_view();
            match self.step() {
                Action::Emit(mut more) => {
                    let ghost added = more.deep_view();
                    lines.append(&mut more);
                    proof {
                        lemma_stream_push(before.ticks(), self.ticks().last());
                        assert(self.ticks() =~= before.ticks().push(self.ticks().last()));
                        assert(lines.deep_view() =~= written + added);
                        assert(old(self).transcript() + lines.deep_view() =~= self.transcript());
                        assert forall|k: int| first <= k < self.ticks().len() implies tick_answered(
                            old(self).modules(),
                            #[trigger] self.ticks()[k],
                        ) by {
                            if k < before.ticks().len() {
                                assert(self.ticks()[k] == before.ticks()[k]);
                            } else {
                                assert(all_answered(self.modules(), self.ticks()[k]));
                            }
                        }
                    }
                    done += 1;
                },
                Action::Abort(failure) => {
                    proof {
                        let ghost made = self.ticks().subrange(first, self.ticks().len() as int);
                        assert(tick_failed(before.modules(), self.modules(), failure@));
                        if made.len() > 0 {
                            assert(made.last() == before.ticks().last());
                        }
                        assert(run_failed(old(self).modules(), made, self.modules(), failure@));
                    }
                    return Report { lines, failure: Some(failure) };
                },
                Action::Halt => {
                    return Report { lines, failure: None };
                },
            }
        }
        Report { lines, failure: None }
    }
}

/// What the first step does: it writes the header and the opening
/// bracket, and queries nobody.
pub open spec fn opened(before: Bar, after: Bar, action: Action) -> bool {
    &&& action matches Action::Emit(lines)
    &&& lines.deep_view() == seq![header_line(), opening_line()]
    &&& after.phase() == Phase::HeaderEmitted
    &&& after.modules() == before.modules()
    &&& after.ticks() == before.ticks()
}

/// What a step does once the stream has ended: nothing.
pub open spec fn halted(before: Bar, after: Bar, action: Action) -> bool {
    &&& action is Halt
    &&& after.phase() == Phase::Aborted
    &&& after.modules() == before.modules()
    &&& after.ticks() == before.ticks()
}

/// What a tick does. Either it writes the line of the blocks that the
/// providers handed back, one each and the provider registered last
/// first, and a separator. Or it writes nothing and ends the stream, with
/// the failure of the provider at which the query stopped.
pub open spec fn ticked(before: Bar, after: Bar, action: Action) -> bool {
    match action {
        Action::Emit(lines) => {
            &&& after.phase() == Phase::Ticking
            &&& after.ticks().len() == before.ticks().len() + 1
            &&& after.ticks().drop_last() == before.ticks()
            &&& all_answered(after.modules(), after.ticks().last())
            &&& lines.deep_view() == seq![tick_line(after.ticks().last()), separator_line()]
        },
        Action::Abort(failure) => {
            &&& after.phase() == Phase::Aborted
            &&& after.ticks() == before.ticks()
            &&& tick_failed(before.modules(), after.modules(), failure@)
        },
        Action::Halt => false,
    }
}

/// A sequence with one more element is longer by one, and its other
/// elements stay where they were.
proof fn lemma_push<A>(s: Seq<A>, a: A)
    ensures
        s.push(a).len() == s.len() + 1,
        forall|i: int| 0 <= i < s.len() ==> #[trigger] s.push(a)[i] == s[i],
{
}

/// One more tick adds its line and a separator behind what was written.
pub proof fn lemma_stream_push(ticks: Seq<Tick>, tick: Tick)
    ensures
        stream(ticks.push(tick)) == stream(ticks) + seq![tick_line(tick), separator_line()],
{
    assert(ticks.push(tick).drop_last() =~= ticks);
    assert(stream(ticks.push(tick)) =~= stream(ticks) + seq![tick_line(tick), separator_line()]);
}

/// The line that stands at the place `i` of a stream with these ticks:
/// the header, the opening bracket, then by turns the line of a tick and
/// a separator.
pub open spec fn line_at(ticks: Seq<Tick>, i: int) -> Seq<char> {
    if i == 0 {
        header_line()
    } else if i == 1 {
        opening_line()
    } else if i % 2 == 0 {
        tick_line(ticks[(i - 2) / 2])
    } else {
        separator_line()
    }
}

/// The shape of the stream: two opening lines, then for each tick its
/// line and a separator, in the order of the ticks.
pub proof fn stream_shape(ticks: Seq<Tick>)
    ensures
        stream(ticks).len() == 2 + 2 * ticks.len(),
        forall|i: int| 0 <= i < stream(ticks).len() ==> #[trigger] stream(ticks)[i] == line_at(ticks, i),
    decreases ticks.len(),
{
    if ticks.len() > 0 {
        let rest = ticks.drop_last();
        stream_shape(rest);
        let n = stream(rest).len() as int;
        assert forall|i: int| 0 <= i < stream(ticks).len() implies #[trigger] stream(ticks)[i]
            == line_at(ticks, i) by {
            if i < n {
                assert(stream(ticks)[i] == stream(rest)[i]);
                assert(stream(rest)[i] == line_at(rest, i));
                if i >= 2 && i % 2 == 0 {
                    assert(rest[(i - 2) / 2] == ticks[(i - 2) / 2]);
                }
            } else if i == n {
                assert((i - 2) / 2 == ticks.len() - 1);
            } else {
                assert(i == n + 1);
            }
        }
    }
}

/// The line of a tick is an array: it opens with a bracket and is longer
/// than one character.
pub proof fn tick_line_is_array(tick: Tick)
    ensures
        tick_line(tick).len() >= 2,
        tick_line(tick)[0] == '[',
{
    reveal_strlit("[");
    reveal_strlit("]");
}

/// The four kinds of line differ: the header, the opening bracket and
/// the separator from each other, and the line of a tick from all three.
proof fn lines_differ(tick: Tick)
    ensures
        header_line() == "{\"version\":1,\"click_events\":true}"@,
        header_line() != opening_line(),
        header_line() != separator_line(),
        header_line() != tick_line(tick),
        opening_line() != separator_line(),
        opening_line() != tick_line(tick),
{
    standard_header_text();
    tick_line_is_array(tick);
    reveal_strlit("{\"version\":1,\"click_events\":true}");
    reveal_strlit("[");
    reveal_strlit(",");
    assert(header_line()[0] == '{');
    assert(opening_line().len() == 1);
    assert(opening_line()[0] == '[');
    assert(separator_line()[0] == ',');
}

/// In a stream no line but the first is the header, and no line but the
/// second is the opening bracket.
proof fn opening_lines_stand_alone(ticks: Seq<Tick>)
    ensures
        stream(ticks).len() == 2 + 2 * ticks.len(),
        stream(ticks)[0] == header_line(),
        stream(ticks)[1] == opening_line(),
        forall|i: int| 0 < i < stream(ticks).len() ==> #[trigger] stream(ticks)[i] != header_line(),
        forall|i: int|
            0 <= i < stream(ticks).len() && i != 1 ==> #[trigger] stream(ticks)[i]
                != opening_line(),
{
    stream_shape(ticks);
    lines_differ(Seq::empty());
    assert forall|i: int| 0 <= i < stream(ticks).len() implies (i != 0 ==> #[trigger] stream(
        ticks,
    )[i] != header_line()) && (i != 1 ==> stream(ticks)[i] != opening_line()) by {
        assert(stream(ticks)[i] == line_at(ticks, i));
        if i >= 2 && i % 2 == 0 {
            lines_differ(ticks[(i - 2) / 2]);
        }
    }
}

/// Once the stream has started, the header is its first line, it is
/// `{"version":1,"click_events":true}`, and no later line is the header:
/// it is written exactly once and before every tick.
pub proof fn header_written_once(bar: Bar)
    requires
        bar.wf(),
        bar.phase() != Phase::Uninitialized,
    ensures
        header_line() == "{\"version\":1,\"click_events\":true}"@,
        bar.transcript().len() == 2 + 2 * bar.ticks().len(),
        bar.transcript()[0] == header_line(),
        forall|i: int|
            0 < i < bar.transcript().len() ==> #[trigger] bar.transcript()[i] != header_line(),
{
    opening_lines_stand_alone(bar.ticks());
    lines_differ(Seq::empty());
}

/// Once the stream has started, the bracket that opens the array of
/// ticks is its second line and no other line is that bracket, however
/// many ticks have been written.
pub proof fn opening_written_once(bar: Bar)
    requires
        bar.wf(),
        bar.phase() != Phase::Uninitialized,
    ensures
        bar.transcript()[1] == opening_line(),
        forall|i: int|
            0 <= i < bar.transcript().len() && i != 1 ==> #[trigger] bar.transcript()[i]
                != opening_line(),
{
    opening_lines_stand_alone(bar.ticks());
}

/// Every tick that has been written holds one block for each provider,
/// and its line, followed by a separator, stands at its place in the
/// stream.
pub proof fn ticks_match_registry(bar: Bar)
    requires
        bar.wf(),
        bar.phase() != Phase::Uninitialized,
    ensures
        forall|k: int|
            #![trigger bar.ticks()[k]]
            0 <= k < bar.ticks().len() ==> {
                &&& bar.ticks()[k].len() == bar.modules().len()
                &&& block_texts(bar.ticks()[k]).len() == bar.modules().len()
                &&& bar.transcript()[2 + 2 * k] == array_json(block_texts(bar.ticks()[k]))
                &&& bar.transcript()[3 + 2 * k] == separator_line()
            },
{
    stream_shape(bar.ticks());
    assert forall|k: int| #![trigger bar.ticks()[k]] 0 <= k < bar.ticks().len() implies {
        &&& bar.ticks()[k].len() == bar.modules().len()
        &&& block_texts(bar.ticks()[k]).len() == bar.modules().len()
        &&& bar.transcript()[2 + 2 * k] == array_json(block_texts(bar.ticks()[k]))
        &&& bar.transcript()[3 + 2 * k] == separator_line()
    } by {
        assert(bar.transcript()[2 + 2 * k] == line_at(bar.ticks(), 2 + 2 * k));
        assert(bar.transcript()[3 + 2 * k] == line_at(bar.ticks(), 3 + 2 * k));
    }
}

} // verus!
