use portable_pty::{native_pty_system, MasterPty, PtyPair, PtySize};
use pty_sessions::command::Platform;
use pty_sessions::geometry::Geometry;
use pty_sessions::notification::Notification;
use pty_sessions::reader::{ReaderTask, CHUNK_SIZE};
use pty_sessions::table::{CreateOutcome, Session, SessionTable};
use std::io::{Read, Write};

type Control = Box<dyn MasterPty + Send>;
type Writer = Box<dyn Write + Send>;
type Table = SessionTable<Control, Writer>;

struct Running {
    task: ReaderTask,
    stream: Box<dyn Read + Send>,
}

fn pty_size(geometry: Geometry) -> PtySize {
    PtySize {
        rows: geometry.rows,
        cols: geometry.cols,
        pixel_width: geometry.pixel_width,
        pixel_height: geometry.pixel_height,
    }
}

/// Creates a session as a host does. `None` where this machine has no
/// pseudo-terminal to open, so that nothing can be tried on it.
fn create(table: &mut Table, id: &str, program: &str, args: &[&str]) -> Option<(Option<Running>, Vec<Notification>)> {
    let args = args.iter().map(|a| a.to_string()).collect();
    let request = match table.begin_create(id, Some(program.to_string()), Some(args), Platform::Posix, None) {
        Some(request) => request,
        None => return Some((None, Vec::new())),
    };
    let PtyPair { slave, master } = match native_pty_system().openpty(pty_size(request.size)) {
        Ok(pair) => pair,
        Err(error) => {
            println!("no pseudo-terminal on this machine: {}", error);
            return None;
        }
    };
    let child = slave.spawn_command(request.command());
    drop(slave);
    let mut stream = None;
    let spawned = child.map(|_process| {
        stream = Some(master.try_clone_reader().expect("clone the reader"));
        let writer = master.take_writer().expect("take the writer");
        Session { control: master, writer }
    });
    Some(match table.finish_create(id.to_string(), spawned) {
        CreateOutcome::Started(task) => {
            (Some(Running { task, stream: stream.expect("a reader for the session") }), Vec::new())
        }
        CreateOutcome::SpawnFailed(exit) => (None, vec![exit]),
        CreateOutcome::Ignored => (None, Vec::new()),
    })
}

fn write(table: &mut Table, id: &str, data: &str) -> bool {
    match table.write(id, data) {
        Some((writer, bytes)) => {
            writer.write_all(bytes).expect("write to the session");
            true
        }
        None => false,
    }
}

fn run_to_the_end(running: Running) -> Vec<Notification> {
    let Running { mut task, mut stream } = running;
    let mut buffer = [0u8; CHUNK_SIZE];
    let mut emitted = Vec::new();
    while !task.is_finished() {
        let outcome = stream.read(&mut buffer);
        emitted.extend(task.on_read(&buffer, outcome));
    }
    emitted
}

fn text_of(emitted: &[Notification]) -> String {
    emitted.iter().filter_map(|n| n.payload()).collect()
}

fn exits_in(emitted: &[Notification]) -> usize {
    emitted.iter().filter(|n| n.is_exit()).count()
}

#[test]
fn a_write_after_create_reaches_the_process() {
    let mut table = Table::new();
    let Some((running, early)) = create(&mut table, "a", "sh", &["-c", "read line; printf 'got:%s.' \"$line\""]) else {
        return;
    };
    assert!(early.is_empty());
    assert!(write(&mut table, "a", "hello\n"));
    let emitted = run_to_the_end(running.expect("a running session"));
    assert!(text_of(&emitted).contains("got:hello."), "output was {:?}", text_of(&emitted));
}

#[test]
fn a_process_that_ends_gives_one_exit_after_all_its_output() {
    let mut table = Table::new();
    let Some((running, early)) = create(&mut table, "a", "sh", &["-c", "printf one; printf two"]) else {
        return;
    };
    assert!(early.is_empty());
    let emitted = run_to_the_end(running.expect("a running session"));
    assert_eq!(text_of(&emitted), "onetwo");
    assert_eq!(exits_in(&emitted), 1);
    assert_eq!(emitted.last(), Some(&Notification::Exit { session: "a".to_string() }));
    assert!(emitted.iter().all(|n| n.session() == "a"));
}

#[test]
fn a_second_create_starts_nothing_and_writes_reach_the_first_process() {
    let mut table = Table::new();
    let Some((first, _)) = create(&mut table, "a", "sh", &["-c", "read line; printf 'first:%s.' \"$line\""]) else {
        return;
    };
    let Some((second, early)) = create(&mut table, "a", "sh", &["-c", "read line; printf 'second:%s.' \"$line\""]) else {
        return;
    };
    assert!(second.is_none());
    assert!(early.is_empty());
    assert!(write(&mut table, "a", "x\n"));
    let emitted = run_to_the_end(first.expect("a running session"));
    assert!(text_of(&emitted).contains("first:x."), "output was {:?}", text_of(&emitted));
    assert!(!text_of(&emitted).contains("second:"));
    assert_eq!(exits_in(&emitted), 1);
}

#[test]
fn a_resize_to_40_by_120_is_what_the_terminal_reports() {
    let mut table = Table::new();
    let Some((running, _)) = create(&mut table, "a", "sh", &["-c", "read line"]) else {
        return;
    };
    let before = table.resize("a", 24, 80).expect("a live session").0.get_size().expect("size");
    assert_eq!((before.rows, before.cols), (24, 80));
    let (control, geometry) = table.resize("a", 40, 120).expect("a live session");
    control.resize(pty_size(geometry)).expect("resize");
    let after = control.get_size().expect("size");
    assert_eq!(after, PtySize { rows: 40, cols: 120, pixel_width: 0, pixel_height: 0 });
    assert!(write(&mut table, "a", "\n"));
    assert_eq!(exits_in(&run_to_the_end(running.expect("a running session"))), 1);
}

#[test]
fn writes_and_resizes_of_an_unknown_identifier_touch_no_session() {
    let mut table = Table::new();
    let Some((running, _)) = create(&mut table, "a", "sh", &["-c", "read line; printf 'got:%s.' \"$line\""]) else {
        return;
    };
    assert!(!write(&mut table, "b", "stray\n"));
    assert!(table.resize("b", 40, 120).is_none());
    let size = table.resize("a", 24, 80).expect("a live session").0.get_size().expect("size");
    assert_eq!((size.rows, size.cols), (24, 80));
    assert!(write(&mut table, "a", "mine\n"));
    let emitted = run_to_the_end(running.expect("a running session"));
    assert!(text_of(&emitted).contains("got:mine."), "output was {:?}", text_of(&emitted));
    assert!(!text_of(&emitted).contains("stray"));
}

#[test]
fn a_command_that_does_not_exist_gives_one_exit_and_no_session() {
    let mut table = Table::new();
    let Some((running, emitted)) = create(&mut table, "a", "/no/such/program", &[]) else {
        return;
    };
    assert!(running.is_none());
    assert_eq!(emitted, vec![Notification::Exit { session: "a".to_string() }]);
    assert_eq!(emitted[0].event_name(), "pty-exit-a");
    assert!(!table.contains("a"));
    assert!(!write(&mut table, "a", "data"));
    assert!(table.resize("a", 40, 120).is_none());
}
