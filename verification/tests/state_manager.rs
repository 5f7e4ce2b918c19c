use state_stack::{StackError, State, StateManager, Transition};

/// What a scripted state answers on one frame.
enum Plan {
    Stay,
    Push(&'static str),
    Pop(usize),
    Replace(usize, &'static str),
    Fail(&'static str),
}

/// A state that writes every hook call into the journal and answers each
/// frame with the next entry of its script.
struct Probe {
    name: &'static str,
    script: Vec<Plan>,
    fail_enter: bool,
    fail_leave: bool,
}

impl Probe {
    fn new(name: &'static str) -> Probe {
        Probe { name, script: Vec::new(), fail_enter: false, fail_leave: false }
    }

    fn answering(name: &'static str, script: Vec<Plan>) -> Probe {
        Probe { name, script, fail_enter: false, fail_leave: false }
    }

    fn failing_enter(name: &'static str) -> Probe {
        Probe { name, script: Vec::new(), fail_enter: true, fail_leave: false }
    }

    fn failing_leave(name: &'static str) -> Probe {
        Probe { name, script: Vec::new(), fail_enter: false, fail_leave: true }
    }
}

type Journal = Vec<String>;

impl State<Journal> for Probe {
    fn on_update(
        &mut self,
        journal: &mut Journal,
        depth: usize,
    ) -> Result<Transition<Probe>, anyhow::Error> {
        journal.push(format!("update {} {}", self.name, depth));
        if self.script.is_empty() {
            return Ok(Transition::Stay);
        }
        match self.script.remove(0) {
            Plan::Stay => Ok(Transition::Stay),
            Plan::Push(name) => Ok(Transition::Push(Probe::new(name))),
            Plan::Pop(count) => Ok(Transition::Pop(count)),
            Plan::Replace(count, name) => Ok(Transition::Replace(count, Probe::new(name))),
            Plan::Fail(message) => Err(anyhow::Error::msg(message)),
        }
    }

    fn on_push(&mut self, journal: &mut Journal) -> Result<(), anyhow::Error> {
        journal.push(format!("enter {}", self.name));
        if self.fail_enter {
            return Err(anyhow::Error::msg(format!("{} will not enter", self.name)));
        }
        Ok(())
    }

    fn on_pop(&mut self, journal: &mut Journal) -> Result<(), anyhow::Error> {
        journal.push(format!("leave {}", self.name));
        if self.fail_leave {
            return Err(anyhow::Error::msg(format!("{} will not leave", self.name)));
        }
        Ok(())
    }
}

fn names(manager: &StateManager<Probe>) -> Vec<&'static str> {
    let mut found = Vec::new();
    let mut index = 0;
    while let Some(state) = manager.state(index) {
        found.push(state.name);
        index += 1;
    }
    assert_eq!(found.len(), manager.depth());
    found
}

fn count_of(journal: &Journal, prefix: &str) -> usize {
    journal.iter().filter(|line| line.starts_with(prefix)).count()
}

fn stack_of(entries: Vec<Probe>, journal: &mut Journal) -> StateManager<Probe> {
    let mut manager = StateManager::new(entries.len());
    for entry in entries {
        assert!(manager.push_state(entry, journal).is_ok());
    }
    journal.clear();
    manager
}

#[test]
fn new_manager_is_empty() {
    let manager: StateManager<Probe> = StateManager::new(4);
    assert_eq!(manager.depth(), 0);
    assert!(manager.state(0).is_none());
}

#[test]
fn capacity_is_a_hint_only() {
    let mut journal = Journal::new();
    let mut manager: StateManager<Probe> = StateManager::new(0);
    for name in ["a", "b", "c", "d", "e"] {
        assert!(manager.push_state(Probe::new(name), &mut journal).is_ok());
    }
    assert_eq!(manager.depth(), 5);
    assert_eq!(names(&manager), vec!["a", "b", "c", "d", "e"]);
}

#[test]
fn push_state_enters_then_appends() {
    let mut journal = Journal::new();
    let mut manager = StateManager::new(4);
    assert!(manager.push_state(Probe::new("a"), &mut journal).is_ok());
    assert_eq!(manager.depth(), 1);
    assert_eq!(names(&manager), vec!["a"]);
    assert_eq!(journal, vec!["enter a"]);
}

#[test]
fn push_state_with_failing_hook_leaves_the_stack_alone() {
    let mut journal = Journal::new();
    let mut manager = stack_of(vec![Probe::new("a")], &mut journal);
    let result = manager.push_state(Probe::failing_enter("b"), &mut journal);
    let error = result.expect_err("the enter hook fails");
    assert_eq!(error.to_string(), "b will not enter");
    assert_eq!(names(&manager), vec!["a"]);
    assert_eq!(journal, vec!["enter b"]);
}

#[test]
fn state_is_counted_from_the_bottom() {
    let mut journal = Journal::new();
    let manager = stack_of(vec![Probe::new("a"), Probe::new("b")], &mut journal);
    assert_eq!(manager.state(0).map(|state| state.name), Some("a"));
    assert_eq!(manager.state(1).map(|state| state.name), Some("b"));
    assert!(manager.state(2).is_none());
}

#[test]
fn pop_states_zero_does_nothing() {
    let mut journal = Journal::new();
    let mut manager = stack_of(vec![Probe::new("a")], &mut journal);
    assert!(manager.pop_states(0, &mut journal).is_ok());
    assert_eq!(names(&manager), vec!["a"]);
    assert!(journal.is_empty());
}

#[test]
fn pop_states_leaves_topmost_first() {
    let mut journal = Journal::new();
    let mut manager =
        stack_of(vec![Probe::new("a"), Probe::new("b"), Probe::new("c")], &mut journal);
    assert!(manager.pop_states(2, &mut journal).is_ok());
    assert_eq!(journal, vec!["leave c", "leave b"]);
    assert_eq!(names(&manager), vec!["a"]);
    assert_eq!(manager.depth(), 1);
}

#[test]
fn pop_states_can_empty_the_stack() {
    let mut journal = Journal::new();
    let mut manager = stack_of(vec![Probe::new("a"), Probe::new("b")], &mut journal);
    assert!(manager.pop_states(2, &mut journal).is_ok());
    assert_eq!(manager.depth(), 0);
    assert_eq!(journal, vec!["leave b", "leave a"]);
}

#[test]
fn pop_states_stops_at_the_first_failing_hook() {
    let mut journal = Journal::new();
    let mut manager = stack_of(
        vec![Probe::new("a"), Probe::new("b"), Probe::failing_leave("c"), Probe::new("d")],
        &mut journal,
    );
    let result = manager.pop_states(3, &mut journal);
    let error = result.expect_err("the second leave hook fails");
    assert_eq!(error.to_string(), "c will not leave");
    // d and c are gone, c after its hook was called; b was not touched.
    assert_eq!(journal, vec!["leave d", "leave c"]);
    assert_eq!(names(&manager), vec!["a", "b"]);
}

#[test]
fn update_applies_push_from_the_only_state() {
    let mut journal = Journal::new();
    let mut manager = StateManager::new(4);
    let first = Probe::answering("a", vec![Plan::Push("b")]);
    assert!(manager.push_state(first, &mut journal).is_ok());
    let result = manager.on_update(&mut journal);
    assert!(matches!(result, Ok(true)));
    assert_eq!(manager.depth(), 2);
    assert_eq!(names(&manager), vec!["a", "b"]);
    assert_eq!(count_of(&journal, "enter a"), 1);
    assert_eq!(count_of(&journal, "enter b"), 1);
    assert_eq!(count_of(&journal, "leave"), 0);
    assert_eq!(journal, vec!["enter a", "update a 0", "enter b"]);
}

#[test]
fn update_drops_what_lower_states_ask_for() {
    let mut journal = Journal::new();
    let mut manager = stack_of(
        vec![Probe::answering("a", vec![Plan::Push("c")]), Probe::answering("b", vec![Plan::Stay])],
        &mut journal,
    );
    let result = manager.on_update(&mut journal);
    assert!(matches!(result, Ok(true)));
    assert_eq!(names(&manager), vec!["a", "b"]);
    assert_eq!(journal, vec!["update a 1", "update b 0"]);
    assert_eq!(count_of(&journal, "enter c"), 0);
}

#[test]
fn update_visits_every_state_once_bottom_first() {
    let mut journal = Journal::new();
    let mut manager = stack_of(
        vec![
            Probe::answering("a", vec![Plan::Pop(1)]),
            Probe::answering("b", vec![Plan::Replace(1, "x")]),
            Probe::answering("c", vec![Plan::Push("d")]),
        ],
        &mut journal,
    );
    let result = manager.on_update(&mut journal);
    assert!(matches!(result, Ok(true)));
    assert_eq!(journal, vec!["update a 2", "update b 1", "update c 0", "enter d"]);
    assert_eq!(names(&manager), vec!["a", "b", "c", "d"]);
}

#[test]
fn update_gives_each_state_the_number_of_states_above_it() {
    let mut journal = Journal::new();
    let mut manager = stack_of(
        vec![Probe::new("a"), Probe::new("b"), Probe::new("c"), Probe::new("d")],
        &mut journal,
    );
    assert!(matches!(manager.on_update(&mut journal), Ok(true)));
    assert_eq!(journal, vec!["update a 3", "update b 2", "update c 1", "update d 0"]);
}

#[test]
fn update_on_an_empty_manager_runs_nothing() {
    let mut journal = Journal::new();
    let mut manager: StateManager<Probe> = StateManager::new(4);
    let result = manager.on_update(&mut journal);
    assert!(matches!(result, Ok(false)));
    assert!(journal.is_empty());
    assert_eq!(manager.depth(), 0);
}

#[test]
fn update_says_stop_when_the_last_state_is_popped() {
    let mut journal = Journal::new();
    let mut manager = stack_of(vec![Probe::answering("a", vec![Plan::Pop(1)])], &mut journal);
    let result = manager.on_update(&mut journal);
    assert!(matches!(result, Ok(false)));
    assert_eq!(manager.depth(), 0);
    assert_eq!(journal, vec!["update a 0", "leave a"]);
}

#[test]
fn update_says_go_on_while_a_state_is_left() {
    let mut journal = Journal::new();
    let mut manager = stack_of(
        vec![Probe::new("a"), Probe::answering("b", vec![Plan::Pop(1)])],
        &mut journal,
    );
    let result = manager.on_update(&mut journal);
    assert!(matches!(result, Ok(true)));
    assert_eq!(names(&manager), vec!["a"]);
}

#[test]
fn update_stops_at_the_first_failing_hook() {
    let mut journal = Journal::new();
    let mut manager = stack_of(
        vec![
            Probe::new("a"),
            Probe::answering("b", vec![Plan::Fail("b broke")]),
            Probe::answering("c", vec![Plan::Pop(1)]),
        ],
        &mut journal,
    );
    let result = manager.on_update(&mut journal);
    match result {
        Err(StackError::Hook(error)) => assert_eq!(error.to_string(), "b broke"),
        _ => panic!("the update hook of b fails"),
    }
    assert_eq!(journal, vec!["update a 2", "update b 1"]);
    assert_eq!(names(&manager), vec!["a", "b", "c"]);
}

#[test]
fn update_reports_a_failing_enter_hook() {
    let mut journal = Journal::new();
    let mut manager = StateManager::new(2);
    assert!(manager.push_state(Probe::new("a"), &mut journal).is_ok());
    journal.clear();
    let result =
        manager.apply_pending_transition(Transition::Push(Probe::failing_enter("b")), &mut journal);
    match result {
        Err(StackError::Hook(error)) => assert_eq!(error.to_string(), "b will not enter"),
        _ => panic!("the enter hook of b fails"),
    }
    assert_eq!(names(&manager), vec!["a"]);
    assert_eq!(journal, vec!["enter b"]);
}

#[test]
fn update_refuses_to_pop_more_than_there_is() {
    let mut journal = Journal::new();
    let mut manager = stack_of(
        vec![Probe::new("a"), Probe::answering("b", vec![Plan::Pop(5)])],
        &mut journal,
    );
    let result = manager.on_update(&mut journal);
    assert!(matches!(result, Err(StackError::Underflow { requested: 5, depth: 2 })));
    assert_eq!(names(&manager), vec!["a", "b"]);
    assert_eq!(count_of(&journal, "leave"), 0);
    assert_eq!(journal, vec!["update a 1", "update b 0"]);
}

#[test]
fn update_refuses_to_replace_more_than_there_is() {
    let mut journal = Journal::new();
    let mut manager =
        stack_of(vec![Probe::answering("a", vec![Plan::Replace(2, "b")])], &mut journal);
    let result = manager.on_update(&mut journal);
    assert!(matches!(result, Err(StackError::Underflow { requested: 2, depth: 1 })));
    assert_eq!(names(&manager), vec!["a"]);
    assert_eq!(journal, vec!["update a 0"]);
}

#[test]
fn pop_on_an_empty_manager_is_refused() {
    let mut journal = Journal::new();
    let mut manager: StateManager<Probe> = StateManager::new(4);
    let result = manager.apply_pending_transition(Transition::Pop(1), &mut journal);
    assert!(matches!(result, Err(StackError::Underflow { requested: 1, depth: 0 })));
    assert_eq!(manager.depth(), 0);
    assert!(journal.is_empty());
}

#[test]
fn pop_of_exactly_the_depth_is_accepted() {
    let mut journal = Journal::new();
    let mut manager = stack_of(vec![Probe::new("a"), Probe::new("b")], &mut journal);
    let result = manager.apply_pending_transition(Transition::Pop(2), &mut journal);
    assert!(result.is_ok());
    assert_eq!(manager.depth(), 0);
}

#[test]
fn stay_changes_nothing() {
    let mut journal = Journal::new();
    let mut manager = stack_of(vec![Probe::new("a")], &mut journal);
    let result = manager.apply_pending_transition(Transition::Stay, &mut journal);
    assert!(result.is_ok());
    assert_eq!(names(&manager), vec!["a"]);
    assert!(journal.is_empty());
}

#[test]
fn replace_leaves_before_it_enters() {
    let mut journal = Journal::new();
    let mut manager =
        stack_of(vec![Probe::new("a"), Probe::new("b"), Probe::new("c")], &mut journal);
    let result =
        manager.apply_pending_transition(Transition::Replace(2, Probe::new("d")), &mut journal);
    assert!(result.is_ok());
    assert_eq!(journal, vec!["leave c", "leave b", "enter d"]);
    assert_eq!(names(&manager), vec!["a", "d"]);
}

#[test]
fn replace_of_nothing_is_a_push() {
    let mut journal = Journal::new();
    let mut manager = stack_of(vec![Probe::new("a")], &mut journal);
    let result =
        manager.apply_pending_transition(Transition::Replace(0, Probe::new("b")), &mut journal);
    assert!(result.is_ok());
    assert_eq!(journal, vec!["enter b"]);
    assert_eq!(names(&manager), vec!["a", "b"]);
}

#[test]
fn replace_does_what_pop_then_push_does() {
    let mut replaced_journal = Journal::new();
    let mut replaced = stack_of(
        vec![Probe::new("a"), Probe::new("b"), Probe::new("c")],
        &mut replaced_journal,
    );
    let result = replaced
        .apply_pending_transition(Transition::Replace(2, Probe::new("d")), &mut replaced_journal);
    assert!(result.is_ok());

    let mut stepwise_journal = Journal::new();
    let mut stepwise = stack_of(
        vec![Probe::new("a"), Probe::new("b"), Probe::new("c")],
        &mut stepwise_journal,
    );
    assert!(stepwise.apply_pending_transition(Transition::Pop(2), &mut stepwise_journal).is_ok());
    assert!(stepwise
        .apply_pending_transition(Transition::Push(Probe::new("d")), &mut stepwise_journal)
        .is_ok());

    assert_eq!(replaced_journal, stepwise_journal);
    assert_eq!(replaced.depth(), stepwise.depth());
    assert_eq!(names(&replaced), names(&stepwise));
}

#[test]
fn replace_pushes_nothing_when_a_leave_hook_fails() {
    let mut journal = Journal::new();
    let mut manager = stack_of(
        vec![Probe::new("a"), Probe::failing_leave("b"), Probe::new("c")],
        &mut journal,
    );
    let result =
        manager.apply_pending_transition(Transition::Replace(2, Probe::new("d")), &mut journal);
    match result {
        Err(StackError::Hook(error)) => assert_eq!(error.to_string(), "b will not leave"),
        _ => panic!("the leave hook of b fails"),
    }
    assert_eq!(journal, vec!["leave c", "leave b"]);
    assert_eq!(names(&manager), vec!["a"]);
}

#[test]
fn replace_drops_the_new_state_when_its_enter_hook_fails() {
    let mut journal = Journal::new();
    let mut manager = stack_of(vec![Probe::new("a"), Probe::new("b")], &mut journal);
    let result = manager
        .apply_pending_transition(Transition::Replace(1, Probe::failing_enter("c")), &mut journal);
    match result {
        Err(StackError::Hook(error)) => assert_eq!(error.to_string(), "c will not enter"),
        _ => panic!("the enter hook of c fails"),
    }
    assert_eq!(journal, vec!["leave b", "enter c"]);
    assert_eq!(names(&manager), vec!["a"]);
}

#[test]
fn depth_is_pushes_minus_pops() {
    let mut journal = Journal::new();
    let mut manager = StateManager::new(1);
    assert!(manager.push_state(Probe::new("a"), &mut journal).is_ok());
    assert!(manager.push_state(Probe::new("b"), &mut journal).is_ok());
    assert!(manager.pop_states(1, &mut journal).is_ok());
    assert!(manager.push_state(Probe::new("c"), &mut journal).is_ok());
    assert!(manager.push_state(Probe::new("d"), &mut journal).is_ok());
    assert!(manager.pop_states(2, &mut journal).is_ok());
    assert!(manager.pop_states(0, &mut journal).is_ok());
    // four pushes, three states popped
    assert_eq!(manager.depth(), 1);
    assert_eq!(count_of(&journal, "enter"), 4);
    assert_eq!(count_of(&journal, "leave"), 3);
    assert_eq!(count_of(&journal, "update"), 0);
    assert_eq!(
        journal,
        vec!["enter a", "enter b", "leave b", "enter c", "enter d", "leave d", "leave c"]
    );
    assert_eq!(names(&manager), vec!["a"]);
}

#[test]
fn frames_follow_one_another() {
    let mut journal = Journal::new();
    let mut manager = StateManager::new(4);
    let root = Probe::answering("root", vec![Plan::Push("child"), Plan::Stay, Plan::Pop(1)]);
    assert!(manager.push_state(root, &mut journal).is_ok());
    assert!(matches!(manager.on_update(&mut journal), Ok(true)));
    assert_eq!(names(&manager), vec!["root", "child"]);
    // the child has the focus now and asks for nothing; what root asks is dropped
    assert!(matches!(manager.on_update(&mut journal), Ok(true)));
    assert!(matches!(manager.on_update(&mut journal), Ok(true)));
    assert_eq!(names(&manager), vec!["root", "child"]);
    assert_eq!(
        journal,
        vec![
            "enter root",
            "update root 0",
            "enter child",
            "update root 1",
            "update child 0",
            "update root 1",
            "update child 0",
        ]
    );
}

#[test]
fn default_manager_is_empty() {
    let manager: StateManager<Probe> = StateManager::default();
    assert_eq!(manager.depth(), 0);
}

#[test]
fn hook_success_is_frame_success() {
    assert!(StackError::from_hook(Ok(())).is_ok());
}

#[test]
fn hook_error_comes_through_unchanged() {
    match StackError::from_hook(Err(anyhow::Error::msg("boom"))) {
        Err(StackError::Hook(error)) => assert_eq!(error.to_string(), "boom"),
        _ => panic!("a failed hook is a failed frame"),
    }
}

/// A state that writes no hook of its own.
struct Idle;

impl State<Journal> for Idle {}

/// A state that writes the update hook only.
struct Closing {
    frames: usize,
}

impl State<Journal> for Closing {
    fn on_update(
        &mut self,
        journal: &mut Journal,
        depth: usize,
    ) -> Result<Transition<Closing>, anyhow::Error> {
        journal.push(format!("frame {} at depth {}", self.frames, depth));
        self.frames += 1;
        if self.frames == 3 {
            Ok(Transition::Pop(1))
        } else {
            Ok(Transition::Stay)
        }
    }
}

#[test]
fn hooks_left_out_do_nothing_and_succeed() {
    let mut journal = Journal::new();
    let mut idle = Idle;
    assert!(idle.on_push(&mut journal).is_ok());
    assert!(matches!(idle.on_update(&mut journal, 0), Ok(Transition::Stay)));
    assert!(idle.on_pop(&mut journal).is_ok());
    assert!(journal.is_empty());
}

#[test]
fn state_without_hooks_goes_through_the_manager() {
    let mut journal = Journal::new();
    let mut manager = StateManager::new(2);
    assert!(manager.push_state(Idle, &mut journal).is_ok());
    assert!(manager.push_state(Idle, &mut journal).is_ok());
    assert!(matches!(manager.on_update(&mut journal), Ok(true)));
    assert_eq!(manager.depth(), 2);
    assert!(manager.pop_states(2, &mut journal).is_ok());
    assert_eq!(manager.depth(), 0);
    assert!(journal.is_empty());
}

#[test]
fn state_with_one_hook_keeps_what_it_changes_between_frames() {
    let mut journal = Journal::new();
    let mut manager = StateManager::new(1);
    assert!(manager.push_state(Closing { frames: 0 }, &mut journal).is_ok());
    assert!(matches!(manager.on_update(&mut journal), Ok(true)));
    assert_eq!(manager.state(0).map(|state| state.frames), Some(1));
    assert!(matches!(manager.on_update(&mut journal), Ok(true)));
    assert!(matches!(manager.on_update(&mut journal), Ok(false)));
    assert_eq!(manager.depth(), 0);
    assert_eq!(
        journal,
        vec!["frame 0 at depth 0", "frame 1 at depth 0", "frame 2 at depth 0"]
    );
}
