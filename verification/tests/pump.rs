use wita::context::{set_unwind, Context};
use wita::pump::{Phase, Polled, Pump, PumpAction};
use wita::RunType;

type Ctx = Context<(), String>;

fn name(a: &PumpAction<String>) -> String {
    match a {
        PumpAction::PreProcessing => "pre".to_string(),
        PumpAction::Peek => "peek".to_string(),
        PumpAction::Wait => "wait".to_string(),
        PumpAction::Dispatch => "dispatch".to_string(),
        PumpAction::Idle => "idle".to_string(),
        PumpAction::PostProcessing => "post".to_string(),
        PumpAction::Raise(f) => format!("raise {}", f),
        PumpAction::Exit => "exit".to_string(),
    }
}

/// Runs the loop over what the queue gives, in order; the queue is asked only
/// where the loop has just asked it.
fn drive(run_type: RunType, queue: &[Polled], fault_at_dispatch: Option<usize>) -> Vec<String> {
    let mut ctx: Ctx = Context::new();
    let mut pump = Pump::new(run_type);
    let mut queue = queue.iter();
    let mut actions = Vec::new();
    let mut dispatched = 0;
    for _ in 0..100 {
        let polled = if pump.awaits_message() {
            match queue.next() {
                Some(p) => *p,
                None => break,
            }
        } else {
            Polled::Nothing
        };
        let action = pump.run(&mut ctx, polled);
        actions.push(name(&action));
        match action {
            PumpAction::Dispatch => {
                if fault_at_dispatch == Some(dispatched) {
                    set_unwind(&mut ctx, "boom".to_string());
                }
                dispatched += 1;
            }
            PumpAction::Exit | PumpAction::Raise(_) => break,
            _ => {}
        }
    }
    actions
}

const MESSAGE: Polled = Polled::Message { quit: false };
const QUIT: Polled = Polled::Message { quit: true };

#[test]
fn waiting_mode_dispatches_until_quit() {
    assert_eq!(
        drive(RunType::Wait, &[MESSAGE, MESSAGE, QUIT], None),
        vec!["wait", "dispatch", "wait", "dispatch", "wait", "exit"]
    );
    assert_eq!(drive(RunType::Wait, &[QUIT], None), vec!["wait", "exit"]);
}

#[test]
fn polling_mode_never_waits_and_idles_on_an_empty_queue() {
    let actions = drive(RunType::Idle, &[MESSAGE, Polled::Nothing, MESSAGE, QUIT], None);
    assert_eq!(
        actions,
        vec![
            "pre", "peek", "dispatch", "post", "pre", "peek", "idle", "post", "pre", "peek",
            "dispatch", "post", "pre", "peek", "dispatch", "post", "exit",
        ]
    );
    assert!(!actions.iter().any(|a| a == "wait"));
}

#[test]
fn fault_is_raised_right_after_the_message_in_which_it_was_caught() {
    assert_eq!(
        drive(RunType::Wait, &[MESSAGE, MESSAGE, MESSAGE], Some(1)),
        vec!["wait", "dispatch", "wait", "dispatch", "raise boom"]
    );
    assert_eq!(
        drive(RunType::Idle, &[MESSAGE, MESSAGE, MESSAGE], Some(0)),
        vec!["pre", "peek", "dispatch", "raise boom"]
    );
}

#[test]
fn raised_fault_ends_the_loop_and_is_given_up() {
    let mut ctx: Ctx = Context::new();
    let mut pump = Pump::new(RunType::Wait);
    assert!(matches!(pump.run(&mut ctx, Polled::Nothing), PumpAction::Wait));
    assert!(pump.awaits_message());
    assert!(matches!(pump.run(&mut ctx, MESSAGE), PumpAction::Dispatch));
    assert!(!pump.awaits_message());
    set_unwind(&mut ctx, "boom".to_string());
    match pump.run(&mut ctx, Polled::Nothing) {
        PumpAction::Raise(f) => assert_eq!(f, "boom"),
        _ => panic!("the fault was not raised"),
    }
    assert!(ctx.unwind.is_none());
    assert_eq!(pump.phase, Phase::Finished);
    assert!(matches!(pump.run(&mut ctx, MESSAGE), PumpAction::Exit));
}

#[test]
fn fault_kept_before_a_dispatch_waits_for_its_end() {
    let mut ctx: Ctx = Context::new();
    let mut pump = Pump::new(RunType::Idle);
    set_unwind(&mut ctx, "early".to_string());
    assert!(matches!(pump.run(&mut ctx, Polled::Nothing), PumpAction::PreProcessing));
    assert!(matches!(pump.run(&mut ctx, Polled::Nothing), PumpAction::Peek));
    assert!(matches!(pump.run(&mut ctx, Polled::Nothing), PumpAction::Idle));
    assert_eq!(ctx.unwind, Some("early".to_string()));
    assert!(matches!(pump.run(&mut ctx, Polled::Nothing), PumpAction::Raise(_)));
}

#[test]
fn waiting_goes_on_while_nothing_comes() {
    let mut ctx: Ctx = Context::new();
    let mut pump = Pump::new(RunType::Wait);
    assert_eq!(pump, Pump { run_type: RunType::Wait, phase: Phase::Start, quit_seen: false });
    pump.run(&mut ctx, Polled::Nothing);
    assert!(matches!(pump.run(&mut ctx, Polled::Nothing), PumpAction::Wait));
    assert_eq!(pump.phase, Phase::Waiting);
}
