use std::collections::HashMap;
use vstd::prelude::*;
use vstd::arithmetic::div_mod::{lemma_mod_add_multiples_vanish, lemma_mod_bound, lemma_small_mod};
use crate::conf::{job_views, option_views, Job, JobView, OptionItemView};
use crate::dispatch::{
    dispatch, dispatch_spec, output_view, render_spec, Dispatch, DispatchView, Request,
    RequestView,
};
use crate::error::Error;
use crate::shell::Shell;

verus! {

/// Which of the two cursors the movement events move.
#[derive(Clone, Copy, Debug, PartialEq, Eq, Structural)]
pub enum Mode {
    /// The cursor moves among the jobs.
    Browsing,
    /// The cursor moves among the options of the active job.
    SelectingOption,
}

/// One discrete input. `Enter` and `Confirm` both activate.
#[derive(Clone, Copy, Debug, PartialEq, Eq, Structural)]
pub enum Event {
    MoveDown,
    MoveUp,
    Enter,
    Confirm,
    Collapse,
    Expand,
    Quit,
}

/// What the caller has to do after an event.
#[derive(Debug)]
pub enum Outcome {
    /// Nothing: draw the state and wait for the next event.
    Continue,
    /// Run the command of the request, then report its end with `complete`.
    Run(Request),
    /// The exit entry was activated: the process ends at once.
    Terminate,
    /// The user left: the session ends.
    Quit,
}

/// An outcome as contracts see it.
pub enum OutcomeView {
    Continue,
    Run(RequestView),
    Terminate,
    Quit,
}

impl View for Outcome {
    type V = OutcomeView;

    open spec fn view(&self) -> OutcomeView {
        match self {
            Outcome::Continue => OutcomeView::Continue,
            Outcome::Run(request) => OutcomeView::Run(request@),
            Outcome::Terminate => OutcomeView::Terminate,
            Outcome::Quit => OutcomeView::Quit,
        }
    }
}

/// The state of one interactive session: the highlighted job, the
/// remembered option of each job whose menu was visited, the mode, and the
/// text of the last action.
#[derive(Debug)]
pub struct NavigationState {
    active_job_index: usize,
    option_cursor: HashMap<usize, usize>,
    mode: Mode,
    last_output: String,
}

/// The session state as contracts see it.
pub struct NavigationView {
    pub active_job_index: usize,
    pub option_cursor: Map<usize, usize>,
    pub mode: Mode,
    pub last_output: Seq<char>,
}

impl View for NavigationState {
    type V = NavigationView;

    closed spec fn view(&self) -> NavigationView {
        NavigationView {
            active_job_index: self.active_job_index,
            option_cursor: self.option_cursor@,
            mode: self.mode,
            last_output: self.last_output@,
        }
    }
}

/// Whether an event activates the highlighted entry.
pub open spec fn is_activate(event: Event) -> bool {
    event == Event::Enter || event == Event::Confirm
}

/// How many options a job has; none where it has no menu.
pub open spec fn option_count(job: JobView) -> nat {
    match job.options {
        Some(items) => items.len(),
        None => 0,
    }
}

/// The option that a job's menu starts on: its default where that is an
/// index into its options, else the first.
pub open spec fn seed(job: JobView) -> usize {
    match job.default_option {
        Some(d) => if d < option_count(job) {
            d
        } else {
            0
        },
        None => 0,
    }
}

/// The option cursor of job `k`: the remembered one, or the seed before the
/// first visit.
pub open spec fn cursor_at(jobs: Seq<JobView>, s: NavigationView, k: usize) -> usize
    recommends
        k < jobs.len(),
{
    if s.option_cursor.dom().contains(k) {
        s.option_cursor[k]
    } else {
        seed(jobs[k as int])
    }
}

/// One step forward on a ring of `n` places. A place outside the ring goes
/// to its start, and a ring without places leaves the cursor alone.
pub open spec fn advance(i: usize, n: nat) -> usize {
    if n == 0 {
        i
    } else if i < n {
        ((i + 1) % (n as int)) as usize
    } else {
        0
    }
}

/// One step back on a ring of `n` places. A place outside the ring goes to
/// its start, and a ring without places leaves the cursor alone.
pub open spec fn retreat(i: usize, n: nat) -> usize {
    if n == 0 {
        i
    } else if i < n {
        ((i - 1 + n) % (n as int)) as usize
    } else {
        0
    }
}

/// The option under cursor `c`, where there is one.
pub open spec fn chosen_option(job: JobView, c: usize) -> Option<OptionItemView> {
    match job.options {
        Some(items) => if c < items.len() {
            Some(items[c as int])
        } else {
            None
        },
        None => None,
    }
}

/// The state after the menu of the active job was opened: the cursor of
/// that job is now remembered.
pub open spec fn enter_options(jobs: Seq<JobView>, s: NavigationView) -> NavigationView {
    NavigationView {
        mode: Mode::SelectingOption,
        option_cursor: s.option_cursor.insert(
            s.active_job_index,
            cursor_at(jobs, s, s.active_job_index),
        ),
        ..s
    }
}

/// The state with the cursor of the active job set to `c`.
pub open spec fn with_cursor(s: NavigationView, c: usize) -> NavigationView {
    NavigationView { option_cursor: s.option_cursor.insert(s.active_job_index, c), ..s }
}

/// What an activation dispatches in state `s`, the active job being in
/// range: the job alone while browsing, the job with the option under its
/// cursor while selecting.
pub open spec fn activation(shell: Seq<char>, jobs: Seq<JobView>, s: NavigationView)
    -> DispatchView
    recommends
        s.active_job_index < jobs.len(),
{
    let job = jobs[s.active_job_index as int];
    match s.mode {
        Mode::Browsing => dispatch_spec(shell, job, None),
        Mode::SelectingOption => dispatch_spec(
            shell,
            job,
            chosen_option(job, cursor_at(jobs, s, s.active_job_index)),
        ),
    }
}

/// The state after a dispatch: a text is shown at once, anything else
/// leaves the state as it is.
pub open spec fn shown(s: NavigationView, d: DispatchView) -> NavigationView {
    match d {
        DispatchView::Text(text) => NavigationView { last_output: text, ..s },
        _ => s,
    }
}

/// The state after one event. An active index outside the job list makes
/// every event a no-op.
pub open spec fn next_state(
    shell: Seq<char>,
    jobs: Seq<JobView>,
    s: NavigationView,
    event: Event,
) -> NavigationView {
    if s.active_job_index >= jobs.len() {
        s
    } else {
        let job = jobs[s.active_job_index as int];
        match s.mode {
            Mode::Browsing => match event {
                Event::MoveDown => NavigationView {
                    active_job_index: advance(s.active_job_index, jobs.len()),
                    ..s
                },
                Event::MoveUp => NavigationView {
                    active_job_index: retreat(s.active_job_index, jobs.len()),
                    ..s
                },
                Event::Expand => if job.options.is_some() {
                    enter_options(jobs, s)
                } else {
                    s
                },
                Event::Enter | Event::Confirm => if job.options.is_some() {
                    enter_options(jobs, s)
                } else {
                    shown(s, activation(shell, jobs, s))
                },
                Event::Collapse | Event::Quit => s,
            },
            Mode::SelectingOption => match event {
                Event::MoveDown => if job.options.is_some() {
                    with_cursor(
                        s,
                        advance(cursor_at(jobs, s, s.active_job_index), option_count(job)),
                    )
                } else {
                    s
                },
                Event::MoveUp => if job.options.is_some() {
                    with_cursor(
                        s,
                        retreat(cursor_at(jobs, s, s.active_job_index), option_count(job)),
                    )
                } else {
                    s
                },
                Event::Collapse => NavigationView { mode: Mode::Browsing, ..s },
                Event::Enter | Event::Confirm => shown(s, activation(shell, jobs, s)),
                Event::Expand | Event::Quit => s,
            },
        }
    }
}

/// What the caller has to do after one event. Only an activation that
/// dispatches can ask for a command or end the process.
pub open spec fn next_outcome(
    shell: Seq<char>,
    jobs: Seq<JobView>,
    s: NavigationView,
    event: Event,
) -> OutcomeView {
    if event == Event::Quit {
        OutcomeView::Quit
    } else if s.active_job_index >= jobs.len() || !is_activate(event) {
        OutcomeView::Continue
    } else if s.mode == Mode::Browsing && jobs[s.active_job_index as int].options.is_some() {
        OutcomeView::Continue
    } else {
        match activation(shell, jobs, s) {
            DispatchView::Text(_) => OutcomeView::Continue,
            DispatchView::Run(request) => OutcomeView::Run(request),
            DispatchView::Terminate => OutcomeView::Terminate,
        }
    }
}

/// The state fits the job list: the active job exists, option mode is only
/// held on a job with options, and every remembered cursor of a job with
/// options points at one of them.
pub open spec fn wf(s: NavigationView, jobs: Seq<JobView>) -> bool {
    &&& s.active_job_index < jobs.len()
    &&& (s.mode == Mode::SelectingOption ==> jobs[s.active_job_index as int].options.is_some())
    &&& forall|k: usize| #[trigger]
        s.option_cursor.dom().contains(k) && k < jobs.len() && option_count(jobs[k as int]) > 0
            ==> s.option_cursor[k] < option_count(jobs[k as int])
}

/// Both steps on a ring of at least one place end on the ring.
pub proof fn lemma_ring_bounds(i: usize, n: nat)
    requires
        n > 0,
    ensures
        advance(i, n) < n,
        retreat(i, n) < n,
{
    if i < n {
        lemma_mod_bound(i + 1, n as int);
        lemma_mod_bound(i - 1 + n, n as int);
    }
}

/// An event never leads out of the states that fit the job list.
pub proof fn lemma_step_keeps_wf(
    shell: Seq<char>,
    jobs: Seq<JobView>,
    s: NavigationView,
    event: Event,
)
    requires
        wf(s, jobs),
    ensures
        wf(next_state(shell, jobs, s, event), jobs),
{
    let job = jobs[s.active_job_index as int];
    let c = cursor_at(jobs, s, s.active_job_index);
    lemma_ring_bounds(s.active_job_index, jobs.len());
    if option_count(job) > 0 {
        lemma_ring_bounds(c, option_count(job));
    }
}

/// One step forward on a ring of `n` places.
fn advance_index(i: usize, n: usize) -> (next: usize)
    ensures
        next == advance(i, n as nat),
{
    if n == 0 {
        i
    } else if i < n {
        (i + 1) % n
    } else {
        0
    }
}

/// One step back on a ring of `n` places.
fn retreat_index(i: usize, n: usize) -> (next: usize)
    ensures
        next == retreat(i, n as nat),
{
    if n == 0 {
        i
    } else if i < n {
        if i == 0 {
            proof {
                lemma_small_mod((n - 1) as nat, n as nat);
            }
            n - 1
        } else {
            proof {
                lemma_mod_add_multiples_vanish(i - 1, n as int);
                lemma_small_mod((i - 1) as nat, n as nat);
            }
            i - 1
        }
    } else {
        0
    }
}

/// The option that the menu of `job` starts on.
fn seed_of(job: &Job) -> (c: usize)
    ensures
        c == seed(job@),
{
    match job.default_option {
        Some(d) => match &job.options {
            Some(items) => if d < items.len() {
                d
            } else {
                0
            },
            None => 0,
        },
        None => 0,
    }
}

impl NavigationState {
    /// The state at the start of a session: the first job highlighted, no
    /// menu visited yet, browsing, nothing shown.
    pub fn new() -> (state: NavigationState)
        ensures
            state@ == (NavigationView {
                active_job_index: 0,
                option_cursor: Map::empty(),
                mode: Mode::Browsing,
                last_output: Seq::empty(),
            }),
            forall|jobs: Seq<JobView>| jobs.len() > 0 ==> wf(state@, jobs),
    {
        NavigationState {
            active_job_index: 0,
            option_cursor: HashMap::new(),
            mode: Mode::Browsing,
            last_output: String::new(),
        }
    }

    /// The index of the highlighted job.
    pub fn active_job_index(&self) -> (i: usize)
        ensures
            i == self@.active_job_index,
    {
        self.active_job_index
    }

    /// The current mode.
    pub fn mode(&self) -> (mode: Mode)
        ensures
            mode == self@.mode,
    {
        self.mode
    }

    /// The text of the most recent action.
    pub fn last_output(&self) -> (text: &str)
        ensures
            text@ == self@.last_output,
    {
        self.last_output.as_str()
    }

    /// The option cursor of the highlighted job, for a job with options:
    /// the remembered one, or the seed before the first visit.
    pub fn option_cursor(&self, jobs: &Vec<Job>) -> (cursor: Option<usize>)
        ensures
            cursor == if self@.active_job_index < jobs@.len() && job_views(
                jobs@,
            )[self@.active_job_index as int].options.is_some() {
                Some(cursor_at(job_views(jobs@), self@, self@.active_job_index))
            } else {
                None
            },
    {
        if self.active_job_index < jobs.len() {
            let job = &jobs[self.active_job_index];
            match &job.options {
                Some(_) => Some(self.cursor_of(job)),
                None => None,
            }
        } else {
            None
        }
    }

    /// The cursor of the highlighted job, which is `job`.
    fn cursor_of(&self, job: &Job) -> (c: usize)
        ensures
            c == if self@.option_cursor.dom().contains(self@.active_job_index) {
                self@.option_cursor[self@.active_job_index]
            } else {
                seed(job@)
            },
    {
        match self.option_cursor.get(&self.active_job_index) {
            Some(c) => *c,
            None => seed_of(job),
        }
    }

    /// Opens the menu of the highlighted job, which is `job`.
    fn open_menu(&mut self, job: &Job)
        ensures
            final(self)@ == (NavigationView {
                mode: Mode::SelectingOption,
                option_cursor: old(self)@.option_cursor.insert(
                    old(self)@.active_job_index,
                    if old(self)@.option_cursor.dom().contains(old(self)@.active_job_index) {
                        old(self)@.option_cursor[old(self)@.active_job_index]
                    } else {
                        seed(job@)
                    },
                ),
                ..old(self)@
            }),
    {
        let c = self.cursor_of(job);
        self.option_cursor.insert(self.active_job_index, c);
        self.mode = Mode::SelectingOption;
    }

    /// Applies what a dispatch came to.
    fn apply(&mut self, dispatched: Dispatch) -> (outcome: Outcome)
        ensures
            final(self)@ == shown(old(self)@, dispatched@),
            outcome@ == match dispatched@ {
                DispatchView::Text(_) => OutcomeView::Continue,
                DispatchView::Run(request) => OutcomeView::Run(request),
                DispatchView::Terminate => OutcomeView::Terminate,
            },
    {
        match dispatched {
            Dispatch::Text(text) => {
                self.last_output = text;
                Outcome::Continue
            },
            Dispatch::Run(request) => Outcome::Run(request),
            Dispatch::Terminate => Outcome::Terminate,
        }
    }

    /// Interprets one event against the job list. The state moves as the
    /// transition function says and the outcome tells the caller what is
    /// left to do; no command is run here. A state that fits the job list
    /// still fits it afterwards.
    pub fn handle_event(&mut self, jobs: &Vec<Job>, shell: &Shell, event: Event) -> (outcome:
        Outcome)
        ensures
            final(self)@ == next_state(shell@, job_views(jobs@), old(self)@, event),
            outcome@ == next_outcome(shell@, job_views(jobs@), old(self)@, event),
            wf(old(self)@, job_views(jobs@)) ==> wf(final(self)@, job_views(jobs@)),
    {
        proof {
            if wf(self@, job_views(jobs@)) {
                lemma_step_keeps_wf(shell@, job_views(jobs@), self@, event);
            }
        }
        let n = jobs.len();
        if self.active_job_index >= n {
            return match event {
                Event::Quit => Outcome::Quit,
                _ => Outcome::Continue,
            };
        }
        let job = &jobs[self.active_job_index];
        assert(job@ == job_views(jobs@)[self@.active_job_index as int]);
        match self.mode {
            Mode::Browsing => match event {
                Event::MoveDown => {
                    self.active_job_index = advance_index(self.active_job_index, n);
                    Outcome::Continue
                },
                Event::MoveUp => {
                    self.active_job_index = retreat_index(self.active_job_index, n);
                    Outcome::Continue
                },
                Event::Expand => {
                    if job.options.is_some() {
                        self.open_menu(job);
                    }
                    Outcome::Continue
                },
                Event::Enter | Event::Confirm => {
                    if job.options.is_some() {
                        self.open_menu(job);
                        Outcome::Continue
                    } else {
                        let dispatched = dispatch(shell, job, None);
                        self.apply(dispatched)
                    }
                },
                Event::Collapse => Outcome::Continue,
                Event::Quit => Outcome::Quit,
            },
            Mode::SelectingOption => match event {
                Event::MoveDown => {
                    if let Some(items) = &job.options {
                        let c = self.cursor_of(job);
                        let next = advance_index(c, items.len());
                        self.option_cursor.insert(self.active_job_index, next);
                    }
                    Outcome::Continue
                },
                Event::MoveUp => {
                    if let Some(items) = &job.options {
                        let c = self.cursor_of(job);
                        let next = retreat_index(c, items.len());
                        self.option_cursor.insert(self.active_job_index, next);
                    }
                    Outcome::Continue
                },
                Event::Collapse => {
                    self.mode = Mode::Browsing;
                    Outcome::Continue
                },
                Event::Enter | Event::Confirm => {
                    let c = self.cursor_of(job);
                    let dispatched = match &job.options {
                        Some(items) => if c < items.len() {
                            assert(option_views(items@)[c as int] == items@[c as int]@);
                            dispatch(shell, job, Some(&items[c]))
                        } else {
                            dispatch(shell, job, None)
                        },
                        None => dispatch(shell, job, None),
                    };
                    self.apply(dispatched)
                },
                Event::Expand => Outcome::Continue,
                Event::Quit => Outcome::Quit,
            },
        }
    }

    /// Takes in the end of the command that `request` asked for: its text
    /// under the request's heading becomes the last output, and a failed
    /// run leaves the last output empty. Nothing else changes.
    pub fn complete(&mut self, request: &Request, result: Result<String, Error>)
        ensures
            final(self)@ == (NavigationView {
                last_output: render_spec(request@.heading, output_view(result)),
                ..old(self)@
            }),
            result.is_err() ==> final(self)@.last_output.len() == 0,
            forall|jobs: Seq<JobView>| wf(old(self)@, jobs) ==> wf(final(self)@, jobs),
    {
        self.last_output = request.render(result);
    }
}

} // verus!
