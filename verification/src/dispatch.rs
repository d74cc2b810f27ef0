use vstd::prelude::*;
use vstd::string::*;
use crate::conf::{Job, JobView, OptionItem, OptionItemView};
use crate::error::Error;
use crate::shell::Shell;

verus! {

/// A command that is to be run, with the heading under which its output
/// will be shown.
#[derive(Debug)]
pub struct Request {
    pub heading: String,
    pub command: String,
}

/// What activating a job comes to.
#[derive(Debug)]
pub enum Dispatch {
    /// The text to show; nothing is run.
    Text(String),
    /// A command to run; its output is shown under the request's heading.
    Run(Request),
    /// The session ends at once.
    Terminate,
}

/// A request as contracts see it.
pub struct RequestView {
    pub heading: Seq<char>,
    pub command: Seq<char>,
}

/// A dispatch as contracts see it.
pub enum DispatchView {
    Text(Seq<char>),
    Run(RequestView),
    Terminate,
}

impl View for Request {
    type V = RequestView;

    open spec fn view(&self) -> RequestView {
        RequestView { heading: self.heading@, command: self.command@ }
    }
}

impl View for Dispatch {
    type V = DispatchView;

    open spec fn view(&self) -> DispatchView {
        match self {
            Dispatch::Text(text) => DispatchView::Text(text@),
            Dispatch::Run(request) => DispatchView::Run(request@),
            Dispatch::Terminate => DispatchView::Terminate,
        }
    }
}

/// What a job without a command and without options does, by its label.
pub open spec fn builtin_dispatch(shell: Seq<char>, label: Seq<char>) -> DispatchView {
    if label == "Info"@ {
        DispatchView::Text("Which Shell:\n"@ + shell)
    } else if label == "Exit"@ {
        DispatchView::Terminate
    } else {
        DispatchView::Text(Seq::empty())
    }
}

/// What activating `job` comes to, with `option` chosen. Options decide the
/// class of a job: one that has them runs the chosen option's command under
/// the heading "label option-label", and shows nothing where no option was
/// chosen. A job without options runs its own command under its label, or
/// is a built-in entry.
pub open spec fn dispatch_spec(
    shell: Seq<char>,
    job: JobView,
    option: Option<OptionItemView>,
) -> DispatchView {
    if job.options.is_some() {
        match option {
            Some(chosen) => DispatchView::Run(
                RequestView { heading: job.label + " "@ + chosen.label, command: chosen.cmd },
            ),
            None => DispatchView::Text(Seq::empty()),
        }
    } else {
        match job.cmd {
            Some(cmd) => DispatchView::Run(RequestView { heading: job.label, command: cmd }),
            None => builtin_dispatch(shell, job.label),
        }
    }
}

/// The text shown for a request once its command has ended: heading, colon,
/// line break, output. A failed run shows nothing at all.
pub open spec fn render_spec(heading: Seq<char>, output: Option<Seq<char>>) -> Seq<char> {
    match output {
        Some(text) => heading + ":\n"@ + text,
        None => Seq::empty(),
    }
}

/// The view of an optional option.
pub open spec fn chosen_view(option: Option<&OptionItem>) -> Option<OptionItemView> {
    match option {
        Some(chosen) => Some(chosen@),
        None => None,
    }
}

/// The output of a run as contracts see it: its text, or none for a failure.
pub open spec fn output_view(result: Result<String, Error>) -> Option<Seq<char>> {
    match result {
        Ok(text) => Some(text@),
        Err(_) => None,
    }
}

/// Decides what activating `job` comes to. At most one command is asked
/// for, and none is ever started here.
pub fn dispatch(shell: &Shell, job: &Job, option: Option<&OptionItem>) -> (outcome: Dispatch)
    ensures
        outcome@ == dispatch_spec(shell@, job@, chosen_view(option)),
{
    match &job.options {
        Some(_) => match option {
            Some(chosen) => {
                let mut heading = job.label.clone();
                heading.append(" ");
                heading.append(chosen.label.as_str());
                Dispatch::Run(Request { heading, command: chosen.cmd.clone() })
            },
            None => Dispatch::Text(String::new()),
        },
        None => match &job.cmd {
            Some(cmd) => Dispatch::Run(Request { heading: job.label.clone(), command: cmd.clone() }),
            None => {
                if job.label == String::from_str("Info") {
                    Dispatch::Text(String::from_str("Which Shell:\n").concat(shell.get_shell().as_str()))
                } else if job.label == String::from_str("Exit") {
                    Dispatch::Terminate
                } else {
                    Dispatch::Text(String::new())
                }
            },
        },
    }
}

impl Request {
    /// The text to show once the command of this request has ended.
    pub fn render(&self, result: Result<String, Error>) -> (text: String)
        ensures
            text@ == render_spec(self.heading@, output_view(result)),
            result.is_err() ==> text@.len() == 0,
    {
        match result {
            Ok(output) => {
                let mut text = self.heading.clone();
                text.append(":\n");
                text.append(output.as_str());
                text
            },
            Err(_) => String::new(),
        }
    }
}

} // verus!
