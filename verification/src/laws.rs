use vstd::prelude::*;
use vstd::arithmetic::div_mod::{lemma_mod_self_0, lemma_small_mod};
use crate::conf::{builtin, classify, JobView, TaskType};
use crate::navigation::{
    advance, cursor_at, is_activate, lemma_step_keeps_wf, next_outcome, next_state, option_count,
    retreat, wf, Event, Mode, NavigationView, OutcomeView,
};

verus! {

/// The state after a sequence of events, taken in order.
pub open spec fn run_events(
    shell: Seq<char>,
    jobs: Seq<JobView>,
    s: NavigationView,
    events: Seq<Event>,
) -> NavigationView
    decreases events.len(),
{
    if events.len() == 0 {
        s
    } else {
        run_events(shell, jobs, next_state(shell, jobs, s, events[0]), events.drop_first())
    }
}

/// Whether a sequence of events holds movements only.
pub open spec fn only_moves(events: Seq<Event>) -> bool {
    forall|i: int|
        0 <= i < events.len() ==> #[trigger] events[i] == Event::MoveDown || events[i]
            == Event::MoveUp
}

/// Whatever events arrive, the active index stays inside the job list and
/// every remembered option cursor inside the options of its job.
pub proof fn law_bounds(
    shell: Seq<char>,
    jobs: Seq<JobView>,
    s: NavigationView,
    events: Seq<Event>,
)
    requires
        wf(s, jobs),
    ensures
        wf(run_events(shell, jobs, s, events), jobs),
        run_events(shell, jobs, s, events).active_job_index < jobs.len(),
        forall|k: usize| #[trigger]
            run_events(shell, jobs, s, events).option_cursor.dom().contains(k) && k < jobs.len()
                && option_count(jobs[k as int]) > 0 ==> run_events(
                shell,
                jobs,
                s,
                events,
            ).option_cursor[k] < option_count(jobs[k as int]),
    decreases events.len(),
{
    if events.len() > 0 {
        lemma_step_keeps_wf(shell, jobs, s, events[0]);
        law_bounds(shell, jobs, next_state(shell, jobs, s, events[0]), events.drop_first());
    }
}

/// On a ring the step forward from the last place leads to the first, and
/// the step back from the first to the last.
pub proof fn law_ring_wraps(n: nat)
    requires
        0 < n <= usize::MAX,
    ensures
        advance((n - 1) as usize, n) == 0,
        retreat(0, n) == n - 1,
{
    lemma_mod_self_0(n as int);
    lemma_small_mod((n - 1) as nat, n);
}

/// While browsing, moving down from the last job highlights the first, and
/// moving up from the first highlights the last.
pub proof fn law_job_wraparound(shell: Seq<char>, jobs: Seq<JobView>, s: NavigationView)
    requires
        wf(s, jobs),
        jobs.len() <= usize::MAX,
        s.mode == Mode::Browsing,
    ensures
        s.active_job_index == jobs.len() - 1 ==> next_state(
            shell,
            jobs,
            s,
            Event::MoveDown,
        ).active_job_index == 0,
        s.active_job_index == 0 ==> next_state(shell, jobs, s, Event::MoveUp).active_job_index
            == jobs.len() - 1,
{
    law_ring_wraps(jobs.len());
}

/// While selecting, moving down from the last option of the active job
/// leads to its first, and moving up from the first to its last.
pub proof fn law_option_wraparound(shell: Seq<char>, jobs: Seq<JobView>, s: NavigationView)
    requires
        wf(s, jobs),
        s.mode == Mode::SelectingOption,
        0 < option_count(jobs[s.active_job_index as int]) <= usize::MAX,
    ensures
        ({
            let a = s.active_job_index;
            let n = option_count(jobs[a as int]);
            &&& cursor_at(jobs, s, a) == n - 1 ==> cursor_at(
                jobs,
                next_state(shell, jobs, s, Event::MoveDown),
                a,
            ) == 0
            &&& cursor_at(jobs, s, a) == 0 ==> cursor_at(
                jobs,
                next_state(shell, jobs, s, Event::MoveUp),
                a,
            ) == n - 1
        }),
{
    law_ring_wraps(option_count(jobs[s.active_job_index as int]));
}

/// An event touches no remembered cursor but that of the active job, and
/// that one only while selecting.
pub proof fn law_cursor_kept(
    shell: Seq<char>,
    jobs: Seq<JobView>,
    s: NavigationView,
    event: Event,
    k: usize,
)
    requires
        s.option_cursor.dom().contains(k),
        k != s.active_job_index || s.mode == Mode::Browsing,
    ensures
        next_state(shell, jobs, s, event).option_cursor.dom().contains(k),
        next_state(shell, jobs, s, event).option_cursor[k] == s.option_cursor[k],
{
}

/// Whether, all through a sequence of events, the menu of job `k` is never
/// the one that is open when an event arrives.
pub open spec fn menu_closed_throughout(
    shell: Seq<char>,
    jobs: Seq<JobView>,
    s: NavigationView,
    events: Seq<Event>,
    k: usize,
) -> bool
    decreases events.len(),
{
    events.len() == 0 || ((k != s.active_job_index || s.mode == Mode::Browsing)
        && menu_closed_throughout(
        shell,
        jobs,
        next_state(shell, jobs, s, events[0]),
        events.drop_first(),
        k,
    ))
}

/// The remembered cursor of a job outlasts everything that happens while
/// its menu is closed: other jobs may be visited, their menus opened and
/// moved in, and commands run.
pub proof fn law_cursor_outlasts_absence(
    shell: Seq<char>,
    jobs: Seq<JobView>,
    s: NavigationView,
    events: Seq<Event>,
    k: usize,
)
    requires
        s.option_cursor.dom().contains(k),
        menu_closed_throughout(shell, jobs, s, events, k),
    ensures
        run_events(shell, jobs, s, events).option_cursor.dom().contains(k),
        run_events(shell, jobs, s, events).option_cursor[k] == s.option_cursor[k],
    decreases events.len(),
{
    if events.len() > 0 {
        law_cursor_kept(shell, jobs, s, events[0], k);
        law_cursor_outlasts_absence(
            shell,
            jobs,
            next_state(shell, jobs, s, events[0]),
            events.drop_first(),
            k,
        );
    }
}

/// Movements while browsing leave every remembered cursor as it was,
/// however many they are: a job that is left and come back to still shows
/// the option that was last chosen for it.
pub proof fn law_memoization(
    shell: Seq<char>,
    jobs: Seq<JobView>,
    s: NavigationView,
    events: Seq<Event>,
)
    requires
        s.mode == Mode::Browsing,
        only_moves(events),
    ensures
        run_events(shell, jobs, s, events).mode == Mode::Browsing,
        run_events(shell, jobs, s, events).option_cursor == s.option_cursor,
        forall|k: usize|
            cursor_at(jobs, run_events(shell, jobs, s, events), k) == cursor_at(jobs, s, k),
    decreases events.len(),
{
    if events.len() > 0 {
        let first = events[0];
        let rest = events.drop_first();
        assert(first == Event::MoveDown || first == Event::MoveUp);
        assert forall|i: int| 0 <= i < rest.len() implies #[trigger] rest[i] == Event::MoveDown
            || rest[i] == Event::MoveUp by {
            assert(rest[i] == events[i + 1]);
        }
        law_memoization(shell, jobs, next_state(shell, jobs, s, first), rest);
    }
}

/// Opening the menu of a job, by expanding or by activating, changes no
/// cursor: a remembered one is shown again, and a job that was never
/// visited starts on its default option where that is one of its options,
/// else on the first.
pub proof fn law_default_seeding(
    shell: Seq<char>,
    jobs: Seq<JobView>,
    s: NavigationView,
    event: Event,
)
    requires
        s.active_job_index < jobs.len(),
        s.mode == Mode::Browsing,
        jobs[s.active_job_index as int].options.is_some(),
        event == Event::Expand || is_activate(event),
    ensures
        ({
            let a = s.active_job_index;
            let t = next_state(shell, jobs, s, event);
            &&& t.mode == Mode::SelectingOption
            &&& t.active_job_index == a
            &&& t.option_cursor.dom().contains(a)
            &&& t.option_cursor[a] == cursor_at(jobs, s, a)
            &&& !s.option_cursor.dom().contains(a) ==> match jobs[a as int].default_option {
                Some(d) => t.option_cursor[a] == if d < option_count(jobs[a as int]) {
                    d
                } else {
                    0
                },
                None => t.option_cursor[a] == 0,
            }
        }),
{
}

/// A direct job never leads into option mode, whatever the event.
pub proof fn law_direct_stays_browsing(
    shell: Seq<char>,
    jobs: Seq<JobView>,
    s: NavigationView,
    event: Event,
)
    requires
        wf(s, jobs),
        classify(jobs[s.active_job_index as int]) == TaskType::Direct,
    ensures
        s.mode == Mode::Browsing,
        next_state(shell, jobs, s, event).mode == Mode::Browsing,
{
}

/// Expanding never dispatches: no command is asked for, the session goes
/// on, and the last output stays. The same holds of the first activation of
/// a job with options, which only opens its menu.
pub proof fn law_expand_never_dispatches(
    shell: Seq<char>,
    jobs: Seq<JobView>,
    s: NavigationView,
    event: Event,
)
    requires
        event == Event::Expand || (is_activate(event) && s.mode == Mode::Browsing
            && s.active_job_index < jobs.len() && classify(jobs[s.active_job_index as int])
            == TaskType::WithOptions),
    ensures
        next_outcome(shell, jobs, s, event) == OutcomeView::Continue,
        next_state(shell, jobs, s, event).last_output == s.last_output,
{
}

/// Activating the exit entry ends the process, whatever the mode, whatever
/// cursors are remembered and whatever was shown, and asks for no command;
/// the state stays as it was.
pub proof fn law_exit_terminates(
    shell: Seq<char>,
    jobs: Seq<JobView>,
    s: NavigationView,
    event: Event,
)
    requires
        s.active_job_index < jobs.len(),
        jobs[s.active_job_index as int] == builtin("Exit"@),
        is_activate(event),
    ensures
        next_outcome(shell, jobs, s, event) == OutcomeView::Terminate,
        next_state(shell, jobs, s, event) == s,
{
    reveal_strlit("Exit");
    reveal_strlit("Info");
    assert("Exit"@[0] != "Info"@[0]);
}

} // verus!
