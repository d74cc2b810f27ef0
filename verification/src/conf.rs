use vstd::prelude::*;
use vstd::string::*;
use crate::error::Error;

verus! {

/// One labelled command among the variants of a parameterized job.
#[derive(Debug)]
pub struct OptionItem {
    pub label: String,
    pub cmd: String,
}

/// One entry of the menu: a command of its own, a list of options, or
/// neither (a built-in entry, known by its label).
#[derive(Debug)]
pub struct Job {
    pub label: String,
    pub cmd: Option<String>,
    pub default_option: Option<usize>,
    pub options: Option<Vec<OptionItem>>,
}

/// The whole configuration: an environment name and the ordered menu.
#[derive(Debug)]
pub struct Conf {
    pub env: String,
    pub jobs: Vec<Job>,
}

/// An option as contracts see it.
pub struct OptionItemView {
    pub label: Seq<char>,
    pub cmd: Seq<char>,
}

/// A job as contracts see it.
pub struct JobView {
    pub label: Seq<char>,
    pub cmd: Option<Seq<char>>,
    pub default_option: Option<usize>,
    pub options: Option<Seq<OptionItemView>>,
}

/// A configuration as contracts see it.
pub struct ConfView {
    pub env: Seq<char>,
    pub jobs: Seq<JobView>,
}

/// Whether a job runs at once or offers a menu of options first.
#[derive(Clone, Copy, Debug, PartialEq, Eq, Structural)]
pub enum TaskType {
    Direct,
    WithOptions,
}

impl View for OptionItem {
    type V = OptionItemView;

    open spec fn view(&self) -> OptionItemView {
        OptionItemView { label: self.label@, cmd: self.cmd@ }
    }
}

/// The views of a list of options, in order.
pub open spec fn option_views(items: Seq<OptionItem>) -> Seq<OptionItemView> {
    Seq::new(items.len(), |i: int| items[i]@)
}

impl View for Job {
    type V = JobView;

    open spec fn view(&self) -> JobView {
        JobView {
            label: self.label@,
            cmd: match self.cmd {
                Some(c) => Some(c@),
                None => None,
            },
            default_option: self.default_option,
            options: match self.options {
                Some(items) => Some(option_views(items@)),
                None => None,
            },
        }
    }
}

/// The views of a list of jobs, in order.
pub open spec fn job_views(jobs: Seq<Job>) -> Seq<JobView> {
    Seq::new(jobs.len(), |i: int| jobs[i]@)
}

impl View for Conf {
    type V = ConfView;

    open spec fn view(&self) -> ConfView {
        ConfView { env: self.env@, jobs: job_views(self.jobs@) }
    }
}

/// A job with options is parameterized, whatever else it holds; every other
/// job is direct.
pub open spec fn classify(job: JobView) -> TaskType {
    if job.options.is_some() {
        TaskType::WithOptions
    } else {
        TaskType::Direct
    }
}

/// A built-in entry: the given label, no command, no options.
pub open spec fn builtin(label: Seq<char>) -> JobView {
    JobView { label, cmd: None, default_option: None, options: None }
}

/// The menu after the two built-in entries were put behind the user's jobs.
pub open spec fn with_builtins(jobs: Seq<JobView>) -> Seq<JobView> {
    jobs.push(builtin("Info"@)).push(builtin("Exit"@))
}

impl Job {
    /// The class of this job, fixed by the presence of options.
    pub fn task_type(&self) -> (kind: TaskType)
        ensures
            kind == classify(self@),
    {
        match &self.options {
            Some(_) => TaskType::WithOptions,
            None => TaskType::Direct,
        }
    }

    /// A built-in entry with the given label.
    pub fn builtin(label: &str) -> (job: Job)
        ensures
            job@ == builtin(label@),
    {
        Job { label: String::from_str(label), cmd: None, default_option: None, options: None }
    }
}

/// The class of every job of the configuration, in menu order.
pub fn create_jobs(conf: &Conf) -> (kinds: Vec<TaskType>)
    ensures
        kinds@.len() == conf@.jobs.len(),
        forall|i: int| 0 <= i < kinds@.len() ==> kinds@[i] == classify(#[trigger] conf@.jobs[i]),
{
    let mut kinds: Vec<TaskType> = Vec::new();
    let mut i: usize = 0;
    while i < conf.jobs.len()
        invariant
            i <= conf.jobs@.len(),
            kinds@.len() == i,
            forall|k: int| 0 <= k < i ==> kinds@[k] == classify(#[trigger] conf@.jobs[k]),
        decreases conf.jobs@.len() - i,
    {
        let kind = conf.jobs[i].task_type();
        kinds.push(kind);
        i = i + 1;
    }
    kinds
}

/// Finishes a configuration that was read from text: a text that could not
/// be read is an error, and a configuration that could gets the two built-in
/// entries, "Info" and then "Exit", behind its own jobs.
pub fn parse_config(parsed: Option<Conf>) -> (result: Result<Conf, Error>)
    ensures
        parsed.is_none() ==> result == Err::<Conf, Error>(Error::ConfigParseError),
        parsed.is_some() ==> result.is_ok() && result.unwrap()@ == (ConfView {
            env: parsed.unwrap()@.env,
            jobs: with_builtins(parsed.unwrap()@.jobs),
        }),
{
    match parsed {
        None => Err(Error::ConfigParseError),
        Some(conf) => {
            let mut conf = conf;
            let ghost before = conf@.jobs;
            conf.jobs.push(Job::builtin("Info"));
            conf.jobs.push(Job::builtin("Exit"));
            assert(job_views(conf.jobs@) =~= with_builtins(before));
            Ok(conf)
        },
    }
}

/// Where the configuration file lies: `.run.yml` in the home directory.
/// Without a home directory there is no such place.
pub fn config_path(home: Option<String>) -> (result: Result<String, Error>)
    ensures
        home.is_none() ==> result == Err::<String, Error>(Error::HomeNotFound),
        home.is_some() ==> result.is_ok() && result.unwrap()@ == home.unwrap()@ + "/.run.yml"@,
{
    match home {
        None => Err(Error::HomeNotFound),
        Some(dir) => Ok(dir.concat("/.run.yml")),
    }
}

/// The configuration that a first run writes out.
pub const DEFAULT_CONFIG: &'static str = "env:
jobs:
  - label: Who am I
    cmd: who am i

  - label: Which
    default_option: 1
    options:
      - label: node
        cmd: which node

      - label: python
        cmd: which python

      - label: golang
        cmd: which golang

      - label: rust
        cmd: which rust

      - label: java
        cmd: which java

      - label: kotlin
        cmd: which kotlin";

/// The text of the configuration that a first run writes out.
pub fn default_config() -> (text: String)
    ensures
        text@ == DEFAULT_CONFIG@,
{
    String::from_str(DEFAULT_CONFIG)
}

/// The configuration text that a session starts from.
#[derive(Debug)]
pub struct ConfigText {
    /// The text to read the jobs from.
    pub text: String,
    /// Whether the text is the default one, which has to be written to the
    /// configuration file before it is read.
    pub fresh: bool,
}

/// Chooses the configuration text: what the file held, or, where no file
/// could be read, the default configuration, marked as fresh.
pub fn config_text(contents: Option<String>) -> (chosen: ConfigText)
    ensures
        chosen.fresh == contents.is_none(),
        chosen.text@ == match contents {
            Some(held) => held@,
            None => DEFAULT_CONFIG@,
        },
{
    match contents {
        Some(held) => ConfigText { text: held, fresh: false },
        None => ConfigText { text: default_config(), fresh: true },
    }
}

/// One option on a line of its own.
pub open spec fn option_text(option: OptionItemView) -> Seq<char> {
    "Option Label: "@ + option.label + ", Command: "@ + option.cmd
}

/// The lines of a list of options, each indented by four spaces.
pub open spec fn option_lines(items: Seq<OptionItemView>) -> Seq<char>
    decreases items.len(),
{
    if items.len() == 0 {
        Seq::empty()
    } else {
        option_lines(items.drop_last()) + "    "@ + option_text(items.last()) + "\n"@
    }
}

/// The line of a job's command, where it has one.
pub open spec fn command_part(cmd: Option<Seq<char>>) -> Seq<char> {
    match cmd {
        Some(c) => "  Command: "@ + c + "\n"@,
        None => Seq::empty(),
    }
}

/// The heading and lines of a job's options, where it has them.
pub open spec fn options_part(options: Option<Seq<OptionItemView>>) -> Seq<char> {
    match options {
        Some(items) => "  Options:\n"@ + option_lines(items),
        None => Seq::empty(),
    }
}

/// A job as text: its label, then its command, then its options.
pub open spec fn job_text(job: JobView) -> Seq<char> {
    "Job Label: "@ + job.label + "\n"@ + command_part(job.cmd) + options_part(job.options)
}

/// The texts of a list of jobs, each indented by two spaces.
pub open spec fn job_lines(jobs: Seq<JobView>) -> Seq<char>
    decreases jobs.len(),
{
    if jobs.len() == 0 {
        Seq::empty()
    } else {
        job_lines(jobs.drop_last()) + "  "@ + job_text(jobs.last()) + "\n"@
    }
}

/// A configuration as text: the environment, then the jobs.
pub open spec fn conf_text(conf: ConfView) -> Seq<char> {
    "Environment: "@ + conf.env + "\nJobs:\n"@ + job_lines(conf.jobs)
}

impl OptionItem {
    /// This option as text.
    pub fn to_text(&self) -> (text: String)
        ensures
            text@ == option_text(self@),
    {
        let mut text = String::from_str("Option Label: ");
        text.append(self.label.as_str());
        text.append(", Command: ");
        text.append(self.cmd.as_str());
        text
    }
}

/// The lines of a list of options.
fn option_lines_of(items: &Vec<OptionItem>) -> (text: String)
    ensures
        text@ == option_lines(option_views(items@)),
{
    let ghost views = option_views(items@);
    let mut text = String::new();
    let mut i: usize = 0;
    assert(views.take(0) =~= Seq::<OptionItemView>::empty());
    while i < items.len()
        invariant
            i <= items@.len(),
            views == option_views(items@),
            text@ == option_lines(views.take(i as int)),
        decreases items@.len() - i,
    {
        let line = items[i].to_text();
        proof {
            let upto = views.take(i + 1);
            assert(upto.drop_last() =~= views.take(i as int));
            assert(upto.last() == items@[i as int]@);
        }
        text.append("    ");
        text.append(line.as_str());
        text.append("\n");
        i = i + 1;
    }
    assert(views.take(i as int) =~= views);
    text
}

impl Job {
    /// This job as text.
    pub fn to_text(&self) -> (text: String)
        ensures
            text@ == job_text(self@),
    {
        let mut text = String::from_str("Job Label: ");
        text.append(self.label.as_str());
        text.append("\n");
        let command = match &self.cmd {
            Some(cmd) => {
                let mut part = String::from_str("  Command: ");
                part.append(cmd.as_str());
                part.append("\n");
                part
            },
            None => String::new(),
        };
        text.append(command.as_str());
        let options = match &self.options {
            Some(items) => String::from_str("  Options:\n").concat(option_lines_of(items).as_str()),
            None => String::new(),
        };
        text.append(options.as_str());
        text
    }
}

impl Conf {
    /// This configuration as text.
    pub fn to_text(&self) -> (text: String)
        ensures
            text@ == conf_text(self@),
    {
        let ghost views = job_views(self.jobs@);
        let mut lines = String::new();
        let mut i: usize = 0;
        assert(views.take(0) =~= Seq::<JobView>::empty());
        while i < self.jobs.len()
            invariant
                i <= self.jobs@.len(),
                views == job_views(self.jobs@),
                lines@ == job_lines(views.take(i as int)),
            decreases self.jobs@.len() - i,
        {
            let job = self.jobs[i].to_text();
            proof {
                let upto = views.take(i + 1);
                assert(upto.drop_last() =~= views.take(i as int));
                assert(upto.last() == self.jobs@[i as int]@);
            }
            lines.append("  ");
            lines.append(job.as_str());
            lines.append("\n");
            i = i + 1;
        }
        assert(views.take(i as int) =~= views);
        let mut text = String::from_str("Environment: ");
        text.append(self.env.as_str());
        text.append("\nJobs:\n");
        text.append(lines.as_str());
        text
    }
}

} // verus!
