use nkcore::app_event::{adapter_step, AdapterPhase, AdapterStep, AppEvent, LoopCallback};
use winit::event::{DeviceEvent, DeviceId, WindowEvent};
use winit::window::WindowId;

#[test]
fn adapter_constructs_once_on_resume() {
    let (phase, step) = adapter_step::<u8>(AdapterPhase::AwaitingHandler, LoopCallback::Resumed);
    assert_eq!(phase, AdapterPhase::Running);
    assert!(matches!(step, AdapterStep::Construct));
    let (phase, step) = adapter_step::<u8>(phase, LoopCallback::Resumed);
    assert_eq!(phase, AdapterPhase::Running);
    assert!(matches!(step, AdapterStep::ConstructorSpent));
}

#[test]
fn adapter_forwards_events_unchanged() {
    let running = AdapterPhase::Running;
    let id = WindowId::dummy();
    let (phase, step) = adapter_step::<u8>(running, LoopCallback::WindowEvent(id, WindowEvent::Focused(true)));
    assert_eq!(phase, running);
    match step {
        AdapterStep::Forward(AppEvent::WindowEvent(got_id, WindowEvent::Focused(true))) => assert_eq!(got_id, id),
        _ => panic!("window event not forwarded"),
    }
    let (_, step) = adapter_step::<u8>(running, LoopCallback::DeviceEvent(DeviceId::dummy(), DeviceEvent::Added));
    assert!(matches!(step, AdapterStep::Forward(AppEvent::DeviceEvent(_, DeviceEvent::Added))));
    let (_, step) = adapter_step::<u8>(running, LoopCallback::UserEvent(9));
    assert!(matches!(step, AdapterStep::Forward(AppEvent::UserEvent(9))));
    let (_, step) = adapter_step::<u8>(running, LoopCallback::AboutToWait);
    assert!(matches!(step, AdapterStep::Forward(AppEvent::Idle)));
    let (_, step) = adapter_step::<u8>(running, LoopCallback::Exiting);
    assert!(matches!(step, AdapterStep::Forward(AppEvent::Exit)));
}

#[test]
fn adapter_stops_on_suspension_and_missing_handler() {
    let (phase, step) = adapter_step::<u8>(AdapterPhase::Running, LoopCallback::Suspended);
    assert_eq!(phase, AdapterPhase::Running);
    assert!(matches!(step, AdapterStep::SuspendUnsupported));
    let (phase, step) = adapter_step::<u8>(AdapterPhase::AwaitingHandler, LoopCallback::UserEvent(1));
    assert_eq!(phase, AdapterPhase::AwaitingHandler);
    assert!(matches!(step, AdapterStep::HandlerMissing));
    let (_, step) = adapter_step::<u8>(AdapterPhase::AwaitingHandler, LoopCallback::Suspended);
    assert!(matches!(step, AdapterStep::SuspendUnsupported));
}

#[test]
fn adapter_run_constructs_before_forwarding() {
    let callbacks = vec![LoopCallback::Resumed, LoopCallback::UserEvent(1u8), LoopCallback::Resumed, LoopCallback::Exiting];
    let mut phase = AdapterPhase::AwaitingHandler;
    let mut constructs = 0;
    let mut forwards = 0;
    for callback in callbacks {
        let (next, step) = adapter_step(phase, callback);
        match step {
            AdapterStep::Construct => constructs += 1,
            AdapterStep::Forward(_) => {
                assert_eq!(constructs, 1);
                forwards += 1;
            },
            _ => {},
        }
        phase = next;
    }
    assert_eq!(constructs, 1);
    assert_eq!(forwards, 2);
}

#[test]
fn adapter_run_forwards_later_events_in_order() {
    let callbacks = vec![
        LoopCallback::Resumed,
        LoopCallback::UserEvent(1u8),
        LoopCallback::AboutToWait,
        LoopCallback::UserEvent(2u8),
        LoopCallback::Exiting,
    ];
    let mut phase = AdapterPhase::AwaitingHandler;
    let mut steps = Vec::new();
    for callback in callbacks {
        let (next, step) = adapter_step(phase, callback);
        steps.push(step);
        phase = next;
    }
    assert!(matches!(steps[0], AdapterStep::Construct));
    assert!(matches!(steps[1], AdapterStep::Forward(AppEvent::UserEvent(1))));
    assert!(matches!(steps[2], AdapterStep::Forward(AppEvent::Idle)));
    assert!(matches!(steps[3], AdapterStep::Forward(AppEvent::UserEvent(2))));
    assert!(matches!(steps[4], AdapterStep::Forward(AppEvent::Exit)));
}
