//! What the server reports of itself while it runs.
use crate::text;
use vstd::prelude::*;

verus! {

/// What the server calls itself towards other servers.
pub fn user_agent(version: &str) -> (res: String)
    ensures
        res@ == "lore-server/"@ + version@,
{
    let mut agent = "lore-server/".to_owned();
    agent.append(version);
    agent
}

/// Whether the server is to run in maintenance, by the variable for it.
pub fn is_maintenance(variable: Option<&str>) -> (res: bool)
    ensures
        res == match variable {
            Some(value) => value@ == "1"@,
            None => false,
        },
{
    match variable {
        Some(value) => text::same(value, "1"),
        None => false,
    }
}

/// What happens to a task.
#[derive(Debug, Clone, Copy, PartialEq, Eq, Structural)]
pub enum TaskLifecycleEvent {
    Started,
    Completed,
    Dropped,
}

/// What is added to the counters of tasks.
#[derive(Debug, Clone, Copy, PartialEq, Eq, Structural)]
pub struct TaskCounts {
    /// To the number of tasks ever spawned.
    pub spawned: u64,
    /// To the number of tasks that run.
    pub running: i64,
}

/// What an event adds to the counters.
pub open spec fn task_counts(event: TaskLifecycleEvent) -> TaskCounts {
    match event {
        TaskLifecycleEvent::Started => TaskCounts { spawned: 1, running: 1 },
        _ => TaskCounts { spawned: 0, running: (-1) as i64 },
    }
}

/// Counts an event in the life of a task.
pub fn observe_task_lifecycle(event: TaskLifecycleEvent) -> (res: TaskCounts)
    ensures
        res == task_counts(event),
{
    match event {
        TaskLifecycleEvent::Started => TaskCounts { spawned: 1, running: 1 },
        TaskLifecycleEvent::Completed | TaskLifecycleEvent::Dropped => TaskCounts {
            spawned: 0,
            running: -1,
        },
    }
}

/// The counters after a series of events.
pub open spec fn counted(events: Seq<TaskLifecycleEvent>) -> (int, int)
    decreases events.len(),
{
    if events.len() == 0 {
        (0, 0)
    } else {
        let before = counted(events.drop_last());
        let counts = task_counts(events.last());
        (before.0 + counts.spawned, before.1 + counts.running)
    }
}

/// How many of the events are starts.
pub open spec fn starts(events: Seq<TaskLifecycleEvent>) -> nat
    decreases events.len(),
{
    if events.len() == 0 {
        0
    } else {
        starts(events.drop_last()) + (if events.last() == TaskLifecycleEvent::Started {
            1nat
        } else {
            0nat
        })
    }
}

/// The first counter is the number of tasks that were started, and the second one the number of those
/// that did not end yet.
pub proof fn law_tasks_are_counted(events: Seq<TaskLifecycleEvent>)
    ensures
        counted(events).0 == starts(events),
        counted(events).1 == starts(events) - (events.len() - starts(events)),
    decreases events.len(),
{
    if events.len() > 0 {
        law_tasks_are_counted(events.drop_last());
    }
}

/// What is known of the context that a task was spawned in.
#[derive(Debug)]
pub enum TaskContext<'a> {
    Missing,
    /// There is one, but none of the server.
    Foreign,
    Server(&'a str),
}

impl<'a> TaskContext<'a> {
    /// The label of the context.
    pub open spec fn text(&self) -> Seq<char> {
        match self {
            TaskContext::Missing => "<no context>"@,
            TaskContext::Foreign => "<no server state>"@,
            TaskContext::Server(label) => label@,
        }
    }

    /// The label under which a task is counted.
    pub fn label(&self) -> (res: &'a str)
        ensures
            res@ == self.text(),
    {
        match self {
            TaskContext::Missing => "<no context>",
            TaskContext::Foreign => "<no server state>",
            TaskContext::Server(label) => label,
        }
    }
}

/// The levels of log messages.
#[derive(Debug, Clone, Copy, PartialEq, Eq, Structural)]
pub enum LogLevel {
    Unset,
    Trace,
    Debug,
    Info,
    Warn,
    Error,
}

/// The level under which a message is recorded: its own, and a trace where it has none.
pub fn server_log_level(level: LogLevel) -> (res: LogLevel)
    ensures
        res == if level == LogLevel::Unset {
            LogLevel::Trace
        } else {
            level
        },
{
    match level {
        LogLevel::Unset | LogLevel::Trace => LogLevel::Trace,
        other => other,
    }
}

/// The line of a memory map shows the executable's code.
pub open spec fn maps_executable(line: Seq<char>, executable: Seq<char>) -> bool {
    text::holds(line, executable) && text::holds(line, "r-xp"@)
}

/// The first line that shows the executable's code, from some line on.
pub open spec fn mapping_from(lines: Seq<Seq<char>>, executable: Seq<char>, from: int) -> Option<
    Seq<char>,
>
    decreases lines.len() - from,
{
    if from < 0 || from >= lines.len() {
        None
    } else if maps_executable(lines[from], executable) {
        Some(lines[from])
    } else {
        mapping_from(lines, executable, from + 1)
    }
}

/// Finds where the executable's code is mapped: the first line of the memory map that names the
/// executable and is readable, executable and private.
pub fn find_mapping(maps: &str, executable: &str) -> (res: Option<String>)
    ensures
        match mapping_from(text::lines(maps@), executable@, 0) {
            Some(line) => res matches Some(found) && found@ == line,
            None => res is None,
        },
{
    let lines = text::split_lines(maps);
    let mut i: usize = 0;
    while i < lines.len()
        invariant
            i <= lines@.len(),
            text::views(lines@) == text::lines(maps@),
            mapping_from(text::lines(maps@), executable@, 0) == mapping_from(
                text::lines(maps@),
                executable@,
                i as int,
            ),
        decreases lines@.len() - i,
    {
        let line = lines[i].as_str();
        assert(text::views(lines@)[i as int] == line@);
        if text::contains(line, executable) && text::contains(line, "r-xp") {
            return Some(line.to_owned());
        }
        i = i + 1;
    }
    None
}

/// The detectors of the caller, and behind them those of the plugins.
pub fn combined_detectors<D>(inner: Option<Vec<D>>, plugins: Vec<D>) -> (res: Vec<D>)
    ensures
        res@ == (match inner {
            Some(detectors) => detectors@,
            None => Seq::empty(),
        }) + plugins@,
{
    let mut plugins = plugins;
    match inner {
        Some(detectors) => {
            let mut detectors = detectors;
            detectors.append(&mut plugins);
            detectors
        },
        None => {
            assert(Seq::<D>::empty() + plugins@ =~= plugins@);
            plugins
        },
    }
}

} // verus!
