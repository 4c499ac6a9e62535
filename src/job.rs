//! One thumbnail request as a state machine. The caller performs each
//! [`Action`] (create the cache directory, look for the cache entry, read
//! it, look for the tool, run it) and reports what happened as an [`Event`];
//! the machine decides what comes next, down to the final result.
//!
//! A cache hit reads the entry and never runs the tool. A miss looks for the
//! tool in the development tree, then, only where it is not there, among the
//! packaged resources, and tries the strategies in order, stopping at the first run that
//! exits successfully; when all of them fail, the request fails with the
//! diagnostic of the last run.

use vstd::prelude::*;
use crate::cache_key::{entry_name, entry_name_of};
use crate::encoding::{data_uri, data_uri_of, lossy_text, lossy_text_of};
use crate::strategy::{strategy_args, strategy_args_of, views, STRATEGY_COUNT};
use crate::tool::{packaged_tool_of, packaged_tool_path, PackagedTool, PackagedToolView};

verus! {

/// What came of one run of the extraction tool.
#[derive(Debug, PartialEq, Eq)]
pub enum Outcome {
    /// The tool ran to completion; `success` tells whether its exit status
    /// was zero, and `stderr` holds what it wrote to its error output.
    Exited { success: bool, stderr: Vec<u8> },
    /// The tool could not be started; `reason` says why.
    LaunchFailed { reason: String },
}

/// What the caller reports after performing an action.
#[derive(Debug, PartialEq, Eq)]
pub enum Event {
    /// The cache directory was created, or already existed (`error` is
    /// `None`), or could not be created.
    DirCreated { error: Option<String> },
    /// Whether the cache entry exists.
    EntryProbed { exists: bool },
    /// The bytes of the cache entry, or why they could not be read.
    EntryRead { data: Result<Vec<u8>, String> },
    /// The path of the tool in the development tree, where it exists there;
    /// `None` where it does not, or where the tree cannot be looked at.
    DevToolFound { path: Option<String> },
    /// What looking for the tool among the packaged resources gave.
    PackagedToolFound { lookup: PackagedTool },
    /// What came of running the tool.
    ToolRan { outcome: Outcome },
}

/// What the caller is asked to do next.
#[derive(Debug, PartialEq, Eq)]
pub enum Action {
    /// Create the cache directory at `path`, with its parents.
    CreateCacheDir { path: String },
    /// Report whether a file exists at `path`.
    ProbeEntry { path: String },
    /// Read the file at `path`.
    ReadEntry { path: String },
    /// Look for the tool in the development tree.
    FindDevTool,
    /// Look for the tool among the packaged resources.
    FindPackagedTool,
    /// Run `program` with `args` and report its outcome.
    RunTool { program: String, args: Vec<String> },
    /// The request is over, with this result.
    Finish { result: Result<String, String> },
}

/// Where a request stands.
pub enum Phase {
    PrepareDir,
    ProbeEntry,
    ReadCached,
    FindDevTool,
    FindPackagedTool,
    Extract { tool: String, attempt: usize },
    ReadFresh,
    Done { result: Result<String, String> },
}

/// A thumbnail request for one source reference.
pub struct ThumbnailJob {
    source: String,
    cache_dir: String,
    entry_path: String,
    phase: Phase,
}

pub enum OutcomeView {
    Exited { success: bool, stderr: Seq<u8> },
    LaunchFailed { reason: Seq<char> },
}

pub enum EventView {
    DirCreated { error: Option<Seq<char>> },
    EntryProbed { exists: bool },
    EntryRead { data: Result<Seq<u8>, Seq<char>> },
    DevToolFound { path: Option<Seq<char>> },
    PackagedToolFound { lookup: PackagedToolView },
    ToolRan { outcome: OutcomeView },
}

pub enum ActionView {
    CreateCacheDir { path: Seq<char> },
    ProbeEntry { path: Seq<char> },
    ReadEntry { path: Seq<char> },
    FindDevTool,
    FindPackagedTool,
    RunTool { program: Seq<char>, args: Seq<Seq<char>> },
    Finish { result: Result<Seq<char>, Seq<char>> },
}

pub enum PhaseView {
    PrepareDir,
    ProbeEntry,
    ReadCached,
    FindDevTool,
    FindPackagedTool,
    Extract { tool: Seq<char>, attempt: nat },
    ReadFresh,
    Done { result: Result<Seq<char>, Seq<char>> },
}

pub struct JobView {
    pub source: Seq<char>,
    pub cache_dir: Seq<char>,
    pub entry_path: Seq<char>,
    pub phase: PhaseView,
}

pub open spec fn opt_view(o: Option<String>) -> Option<Seq<char>> {
    match o {
        Some(s) => Some(s@),
        None => None,
    }
}

pub open spec fn result_view(r: Result<String, String>) -> Result<Seq<char>, Seq<char>> {
    match r {
        Ok(s) => Ok(s@),
        Err(e) => Err(e@),
    }
}

impl View for Outcome {
    type V = OutcomeView;

    open spec fn view(&self) -> OutcomeView {
        match self {
            Outcome::Exited { success, stderr } => OutcomeView::Exited {
                success: *success,
                stderr: stderr@,
            },
            Outcome::LaunchFailed { reason } => OutcomeView::LaunchFailed { reason: reason@ },
        }
    }
}

impl View for Event {
    type V = EventView;

    open spec fn view(&self) -> EventView {
        match self {
            Event::DirCreated { error } => EventView::DirCreated { error: opt_view(*error) },
            Event::EntryProbed { exists } => EventView::EntryProbed { exists: *exists },
            Event::EntryRead { data } => EventView::EntryRead {
                data: match data {
                    Ok(d) => Ok(d@),
                    Err(e) => Err(e@),
                },
            },
            Event::DevToolFound { path } => EventView::DevToolFound { path: opt_view(*path) },
            Event::PackagedToolFound { lookup } => EventView::PackagedToolFound {
                lookup: lookup@,
            },
            Event::ToolRan { outcome } => EventView::ToolRan { outcome: outcome@ },
        }
    }
}

impl View for Action {
    type V = ActionView;

    open spec fn view(&self) -> ActionView {
        match self {
            Action::CreateCacheDir { path } => ActionView::CreateCacheDir { path: path@ },
            Action::ProbeEntry { path } => ActionView::ProbeEntry { path: path@ },
            Action::ReadEntry { path } => ActionView::ReadEntry { path: path@ },
            Action::FindDevTool => ActionView::FindDevTool,
            Action::FindPackagedTool => ActionView::FindPackagedTool,
            Action::RunTool { program, args } => ActionView::RunTool {
                program: program@,
                args: views(args@),
            },
            Action::Finish { result } => ActionView::Finish { result: result_view(*result) },
        }
    }
}

impl View for Phase {
    type V = PhaseView;

    open spec fn view(&self) -> PhaseView {
        match self {
            Phase::PrepareDir => PhaseView::PrepareDir,
            Phase::ProbeEntry => PhaseView::ProbeEntry,
            Phase::ReadCached => PhaseView::ReadCached,
            Phase::FindDevTool => PhaseView::FindDevTool,
            Phase::FindPackagedTool => PhaseView::FindPackagedTool,
            Phase::Extract { tool, attempt } => PhaseView::Extract {
                tool: tool@,
                attempt: *attempt as nat,
            },
            Phase::ReadFresh => PhaseView::ReadFresh,
            Phase::Done { result } => PhaseView::Done { result: result_view(*result) },
        }
    }
}

impl View for ThumbnailJob {
    type V = JobView;

    closed spec fn view(&self) -> JobView {
        JobView {
            source: self.source@,
            cache_dir: self.cache_dir@,
            entry_path: self.entry_path@,
            phase: self.phase@,
        }
    }
}

/// The path of the cache entry of `source` under `cache_dir`.
pub open spec fn entry_path_of(cache_dir: Seq<char>, source: Seq<char>) -> Seq<char> {
    cache_dir + "/"@ + entry_name_of(source)
}

/// Whether a run of the tool counts as a success: it ran and exited with
/// status zero, whatever it printed.
pub open spec fn succeeded(o: OutcomeView) -> bool {
    o matches OutcomeView::Exited { success: true, .. }
}

/// The error text of a failed run.
pub open spec fn diagnostic_of(o: OutcomeView) -> Seq<char> {
    match o {
        OutcomeView::Exited { stderr, .. } => "FFmpeg 错误: "@ + lossy_text_of(stderr),
        OutcomeView::LaunchFailed { reason } => "FFmpeg 执行失败: "@ + reason,
    }
}

/// The state of a new request.
pub open spec fn initial(source: Seq<char>, cache_dir: Seq<char>) -> JobView {
    JobView {
        source,
        cache_dir,
        entry_path: entry_path_of(cache_dir, source),
        phase: PhaseView::PrepareDir,
    }
}

/// What a request in state `j` asks the caller to do.
pub open spec fn action_of(j: JobView) -> ActionView {
    match j.phase {
        PhaseView::PrepareDir => ActionView::CreateCacheDir { path: j.cache_dir },
        PhaseView::ProbeEntry => ActionView::ProbeEntry { path: j.entry_path },
        PhaseView::ReadCached => ActionView::ReadEntry { path: j.entry_path },
        PhaseView::FindDevTool => ActionView::FindDevTool,
        PhaseView::FindPackagedTool => ActionView::FindPackagedTool,
        PhaseView::Extract { tool, attempt, .. } => ActionView::RunTool {
            program: tool,
            args: strategy_args_of(attempt as int, j.source, j.entry_path),
        },
        PhaseView::ReadFresh => ActionView::ReadEntry { path: j.entry_path },
        PhaseView::Done { result } => ActionView::Finish { result },
    }
}

/// The phase after the entry was read, or could not be.
pub open spec fn after_read(data: Result<Seq<u8>, Seq<char>>) -> PhaseView {
    match data {
        Ok(d) => PhaseView::Done { result: Ok(data_uri_of(d)) },
        Err(e) => PhaseView::Done { result: Err(e) },
    }
}

/// The phase of a request in `phase` after `e`. An event that does not answer
/// the pending action changes nothing.
pub open spec fn next_phase(phase: PhaseView, e: EventView) -> PhaseView {
    match (phase, e) {
        (PhaseView::PrepareDir, EventView::DirCreated { error }) => match error {
            None => PhaseView::ProbeEntry,
            Some(msg) => PhaseView::Done { result: Err(msg) },
        },
        (PhaseView::ProbeEntry, EventView::EntryProbed { exists }) => if exists {
            PhaseView::ReadCached
        } else {
            PhaseView::FindDevTool
        },
        (PhaseView::ReadCached, EventView::EntryRead { data }) => after_read(data),
        (PhaseView::FindDevTool, EventView::DevToolFound { path }) => match path {
            Some(tool) => PhaseView::Extract { tool, attempt: 0 },
            None => PhaseView::FindPackagedTool,
        },
        (PhaseView::FindPackagedTool, EventView::PackagedToolFound { lookup }) => match packaged_tool_of(
            lookup,
        ) {
            Ok(tool) => PhaseView::Extract { tool, attempt: 0 },
            Err(msg) => PhaseView::Done { result: Err(msg) },
        },
        (PhaseView::Extract { tool, attempt, .. }, EventView::ToolRan { outcome }) => if succeeded(
            outcome,
        ) {
            PhaseView::ReadFresh
        } else if attempt + 1 < STRATEGY_COUNT {
            PhaseView::Extract { tool, attempt: attempt + 1 }
        } else {
            PhaseView::Done { result: Err(diagnostic_of(outcome)) }
        },
        (PhaseView::ReadFresh, EventView::EntryRead { data }) => after_read(data),
        _ => phase,
    }
}

/// The state of a request in `j` after `e`.
pub open spec fn step(j: JobView, e: EventView) -> JobView {
    JobView { phase: next_phase(j.phase, e), ..j }
}

/// The state of a request in `j` after the events `es`, in order.
pub open spec fn run(j: JobView, es: Seq<EventView>) -> JobView
    decreases es.len(),
{
    if es.len() == 0 {
        j
    } else {
        step(run(j, es.drop_last()), es.last())
    }
}

/// The events that report the outcomes `os` of successive runs of the tool.
pub open spec fn tool_events(os: Seq<OutcomeView>) -> Seq<EventView> {
    os.map_values(|o: OutcomeView| EventView::ToolRan { outcome: o })
}

/// Whether the state is well formed: a request never stands at an attempt
/// past the last strategy.
pub open spec fn job_wf(j: JobView) -> bool {
    match j.phase {
        PhaseView::Extract { attempt, .. } => attempt < STRATEGY_COUNT,
        _ => true,
    }
}

/// Whether a request has just found the tool and is about to make its first
/// run.
pub open spec fn starts_extraction(j: JobView) -> bool {
    &&& j.phase is Extract
    &&& j.phase->Extract_attempt == 0
}

/// Running events in two batches is running them all in order.
pub proof fn lemma_run_concat(j: JobView, a: Seq<EventView>, b: Seq<EventView>)
    ensures
        run(j, a + b) == run(run(j, a), b),
    decreases b.len(),
{
    if b.len() == 0 {
        assert(a + b =~= a);
    } else {
        assert((a + b).drop_last() =~= a + b.drop_last());
        assert((a + b).last() == b.last());
        lemma_run_concat(j, a, b.drop_last());
    }
}

/// Once the cache entry has been found, whatever happens afterwards the
/// request only reads the entry or finishes: it never runs the tool.
pub proof fn lemma_cache_hit_never_runs_tool(j: JobView, later: Seq<EventView>)
    requires
        j.phase == PhaseView::ProbeEntry,
    ensures
        step(j, EventView::EntryProbed { exists: true }).phase == PhaseView::ReadCached,
        !(action_of(run(j, seq![EventView::EntryProbed { exists: true }] + later)) is RunTool),
{
    let hit = seq![EventView::EntryProbed { exists: true }];
    assert(hit.drop_last() =~= Seq::<EventView>::empty());
    assert(run(j, hit.drop_last()) == j);
    assert(hit.last() == EventView::EntryProbed { exists: true });
    let s = run(j, hit);
    assert(s == step(j, EventView::EntryProbed { exists: true }));
    lemma_run_concat(j, hit, later);
    lemma_reading_stays_put(s, later);
}

/// A request that does not find its cache entry goes on to look for the
/// tool, even where the entry once existed and has since been cleared.
pub proof fn lemma_miss_locates_tool(j: JobView)
    requires
        j.phase == PhaseView::ProbeEntry,
    ensures
        action_of(step(j, EventView::EntryProbed { exists: false })) == ActionView::FindDevTool,
{
}

/// A request that is reading its entry only waits for the read or finishes.
/// The tool in the development tree is preferred; the packaged one is
/// looked for only where there is none there, and the request fails only
/// where neither is found.
pub proof fn lemma_tool_lookup_order(j: JobView, dev: Seq<char>, lookup: PackagedToolView)
    requires
        j.phase == PhaseView::FindDevTool,
    ensures
        step(j, EventView::DevToolFound { path: Some(dev) }).phase == (PhaseView::Extract {
            tool: dev,
            attempt: 0,
        }),
        action_of(step(j, EventView::DevToolFound { path: None }))
            == ActionView::FindPackagedTool,
        step(
            step(j, EventView::DevToolFound { path: None }),
            EventView::PackagedToolFound { lookup },
        ).phase == match packaged_tool_of(lookup) {
            Ok(tool) => PhaseView::Extract { tool, attempt: 0 },
            Err(msg) => PhaseView::Done { result: Err(msg) },
        },
        (lookup is Found) ==> starts_extraction(
            step(
                step(j, EventView::DevToolFound { path: None }),
                EventView::PackagedToolFound { lookup },
            ),
        ),
{
}

proof fn lemma_reading_stays_put(j: JobView, es: Seq<EventView>)
    requires
        j.phase == PhaseView::ReadCached || j.phase == PhaseView::ReadFresh,
    ensures
        run(j, es).phase == j.phase || run(j, es).phase is Done,
    decreases es.len(),
{
    if es.len() > 0 {
        lemma_reading_stays_put(j, es.drop_last());
    }
}

/// The tool events of the first `i + 1` outcomes are those of the first `i`,
/// then the one of outcome `i`.
proof fn lemma_tool_events_take(os: Seq<OutcomeView>, i: int)
    requires
        0 <= i < os.len(),
    ensures
        tool_events(os.take(i + 1)).drop_last() == tool_events(os.take(i)),
        tool_events(os.take(i + 1)).last() == (EventView::ToolRan { outcome: os[i] }),
        tool_events(os.take(i + 1)).len() == i + 1,
{
    assert(tool_events(os.take(i + 1)).drop_last() =~= tool_events(os.take(i)));
}

/// The state at attempt `i` of a run whose first `i` outcomes all failed.
proof fn lemma_failed_prefix(j: JobView, os: Seq<OutcomeView>, i: int)
    requires
        starts_extraction(j),
        0 <= i < STRATEGY_COUNT,
        i <= os.len(),
        forall|m: int| 0 <= m < i ==> !succeeded(#[trigger] os[m]),
    ensures
        run(j, tool_events(os.take(i))) == (JobView {
            phase: PhaseView::Extract { tool: j.phase->Extract_tool, attempt: i as nat },
            ..j
        }),
    decreases i,
{
    if i == 0 {
        assert(tool_events(os.take(0)) =~= Seq::<EventView>::empty());
    } else {
        lemma_failed_prefix(j, os, i - 1);
        lemma_tool_events_take(os, i - 1);
    }
}

/// Extraction tries the strategies in order and stops at the first run that
/// succeeds: run `i` uses the arguments of strategy `i`, and once run `k`
/// succeeds the request goes on to read the entry, and whatever happens
/// afterwards the tool is not run again.
pub proof fn lemma_first_success_stops(
    j: JobView,
    os: Seq<OutcomeView>,
    k: int,
    later: Seq<EventView>,
)
    requires
        starts_extraction(j),
        0 <= k < STRATEGY_COUNT,
        os.len() == k + 1,
        forall|m: int| 0 <= m < k ==> !succeeded(#[trigger] os[m]),
        succeeded(os[k]),
    ensures
        forall|i: int|
            0 <= i <= k ==> #[trigger] action_of(run(j, tool_events(os.take(i))))
                == (ActionView::RunTool {
                program: j.phase->Extract_tool,
                args: strategy_args_of(i, j.source, j.entry_path),
            }),
        run(j, tool_events(os)).phase == PhaseView::ReadFresh,
        action_of(run(j, tool_events(os))) == (ActionView::ReadEntry { path: j.entry_path }),
        !(action_of(run(j, tool_events(os) + later)) is RunTool),
{
    assert forall|i: int| 0 <= i <= k implies #[trigger] action_of(
        run(j, tool_events(os.take(i))),
    ) == (ActionView::RunTool {
        program: j.phase->Extract_tool,
        args: strategy_args_of(i, j.source, j.entry_path),
    }) by {
        lemma_failed_prefix(j, os, i);
    }
    lemma_failed_prefix(j, os, k);
    lemma_tool_events_take(os, k);
    assert(os.take(k + 1) =~= os);
    lemma_run_concat(j, tool_events(os), later);
    lemma_reading_stays_put(run(j, tool_events(os)), later);
}

/// When every strategy fails, the request fails with the diagnostic of the
/// last run.
pub proof fn lemma_all_fail(j: JobView, os: Seq<OutcomeView>)
    requires
        starts_extraction(j),
        os.len() == STRATEGY_COUNT,
        forall|m: int| 0 <= m < STRATEGY_COUNT ==> !succeeded(#[trigger] os[m]),
    ensures
        run(j, tool_events(os)).phase == (PhaseView::Done {
            result: Err(diagnostic_of(os[STRATEGY_COUNT - 1])),
        }),
        action_of(run(j, tool_events(os))) == (ActionView::Finish {
            result: Err(diagnostic_of(os[STRATEGY_COUNT - 1])),
        }),
{
    let last = STRATEGY_COUNT - 1;
    lemma_failed_prefix(j, os, last as int);
    lemma_tool_events_take(os, last as int);
    assert(os.take(STRATEGY_COUNT as int) =~= os);
}

impl ThumbnailJob {
    pub open spec fn wf(&self) -> bool {
        job_wf(self@)
    }

    /// A new request for `source`, whose cache entry lives in `cache_dir`
    /// under the name that the cache key gives.
    pub fn new(source: String, cache_dir: String) -> (r: ThumbnailJob)
        ensures
            r@ == initial(source@, cache_dir@),
            r.wf(),
    {
        let name = entry_name(source.as_str());
        let dir = cache_dir.clone();
        let entry_path = dir.concat("/").concat(name.as_str());
        ThumbnailJob { source, cache_dir, entry_path, phase: Phase::PrepareDir }
    }

    /// The path of this request's cache entry.
    pub fn entry_path(&self) -> (r: String)
        ensures
            r@ == self@.entry_path,
    {
        self.entry_path.clone()
    }

    /// What the caller is to do next.
    pub fn action(&self) -> (r: Action)
        requires
            self.wf(),
        ensures
            r@ == action_of(self@),
    {
        match &self.phase {
            Phase::PrepareDir => Action::CreateCacheDir { path: self.cache_dir.clone() },
            Phase::ProbeEntry => Action::ProbeEntry { path: self.entry_path.clone() },
            Phase::ReadCached => Action::ReadEntry { path: self.entry_path.clone() },
            Phase::FindDevTool => Action::FindDevTool,
            Phase::FindPackagedTool => Action::FindPackagedTool,
            Phase::Extract { tool, attempt, .. } => Action::RunTool {
                program: tool.clone(),
                args: strategy_args(*attempt, self.source.as_str(), self.entry_path.as_str()),
            },
            Phase::ReadFresh => Action::ReadEntry { path: self.entry_path.clone() },
            Phase::Done { result } => Action::Finish {
                result: match result {
                    Ok(s) => Ok(s.clone()),
                    Err(e) => Err(e.clone()),
                },
            },
        }
    }

    /// Takes in what came of the pending action.
    pub fn advance(&mut self, e: Event)
        requires
            old(self).wf(),
        ensures
            final(self)@ == step(old(self)@, e@),
            final(self).wf(),
    {
        let mut phase = Phase::PrepareDir;
        core::mem::swap(&mut phase, &mut self.phase);
        let next = match (phase, e) {
            (Phase::PrepareDir, Event::DirCreated { error }) => match error {
                None => Phase::ProbeEntry,
                Some(msg) => Phase::Done { result: Err(msg) },
            },
            (Phase::ProbeEntry, Event::EntryProbed { exists }) => if exists {
                Phase::ReadCached
            } else {
                Phase::FindDevTool
            },
            (Phase::ReadCached, Event::EntryRead { data }) => finish_read(data),
            (Phase::FindDevTool, Event::DevToolFound { path }) => match path {
                Some(tool) => Phase::Extract { tool, attempt: 0 },
                None => Phase::FindPackagedTool,
            },
            (Phase::FindPackagedTool, Event::PackagedToolFound { lookup }) => match packaged_tool_path(
                lookup,
            ) {
                Ok(tool) => Phase::Extract { tool, attempt: 0 },
                Err(msg) => Phase::Done { result: Err(msg) },
            },
            (Phase::Extract { tool, attempt }, Event::ToolRan { outcome }) => {
                if outcome_succeeded(&outcome) {
                    Phase::ReadFresh
                } else if attempt + 1 < STRATEGY_COUNT {
                    Phase::Extract { tool, attempt: attempt + 1 }
                } else {
                    Phase::Done { result: Err(diagnostic(outcome)) }
                }
            },
            (Phase::ReadFresh, Event::EntryRead { data }) => finish_read(data),
            (phase, _) => phase,
        };
        self.phase = next;
    }
}

fn outcome_succeeded(o: &Outcome) -> (r: bool)
    ensures
        r == succeeded(o@),
{
    match o {
        Outcome::Exited { success, .. } => *success,
        Outcome::LaunchFailed { .. } => false,
    }
}

fn diagnostic(o: Outcome) -> (r: String)
    ensures
        r@ == diagnostic_of(o@),
{
    match o {
        Outcome::Exited { stderr, .. } => {
            let text = lossy_text(stderr.as_slice());
            String::from_str("FFmpeg 错误: ").concat(text.as_str())
        },
        Outcome::LaunchFailed { reason } => {
            String::from_str("FFmpeg 执行失败: ").concat(reason.as_str())
        },
    }
}

fn finish_read(data: Result<Vec<u8>, String>) -> (r: Phase)
    ensures
        r@ == after_read(
            match data {
                Ok(d) => Ok(d@),
                Err(e) => Err(e@),
            },
        ),
{
    match data {
        Ok(d) => Phase::Done { result: Ok(data_uri(d.as_slice())) },
        Err(e) => Phase::Done { result: Err(e) },
    }
}

} // verus!
