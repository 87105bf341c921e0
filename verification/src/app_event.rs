//! The decisions of the closure-oriented adapter over `winit`'s application model.
//!
//! The adapter holds a constructor until the event loop resumes, then the handler that the
//! constructor returned. Each callback of the event loop is turned into a step: run the
//! constructor, forward an [`AppEvent`] to the handler, or stop because the callback cannot
//! be served.
use vstd::prelude::*;
use winit::event::{DeviceEvent, DeviceId, WindowEvent};
use winit::window::WindowId;

verus! {

#[verifier::external_type_specification]
#[verifier::external_body]
pub struct ExWindowId(WindowId);

#[verifier::external_type_specification]
#[verifier::external_body]
pub struct ExWindowEvent(WindowEvent);

#[verifier::external_type_specification]
#[verifier::external_body]
pub struct ExDeviceId(DeviceId);

#[verifier::external_type_specification]
#[verifier::external_body]
pub struct ExDeviceEvent(DeviceEvent);

/// An event forwarded to a handler running through the adapter.
pub enum AppEvent<T> {
    /// A window-specific event and the window that produced it.
    WindowEvent(WindowId, WindowEvent),
    /// A raw input-device event and the device that produced it.
    DeviceEvent(DeviceId, DeviceEvent),
    /// A user-defined event sent through the event-loop proxy.
    UserEvent(T),
    /// The event loop is about to block while waiting for more events.
    Idle,
    /// The event loop is shutting down.
    Exit,
}

/// A callback that the event loop makes on the adapter.
pub enum LoopCallback<T> {
    /// The application resumed; the handler can now be constructed.
    Resumed,
    /// The application was suspended.
    Suspended,
    WindowEvent(WindowId, WindowEvent),
    DeviceEvent(DeviceId, DeviceEvent),
    UserEvent(T),
    /// The event loop is about to wait for more events.
    AboutToWait,
    /// The event loop is exiting.
    Exiting,
}

/// What the adapter holds: the constructor, before resumption, or the handler after it.
#[derive(PartialEq, Eq, Structural, Clone, Copy, Debug)]
pub enum AdapterPhase {
    AwaitingHandler,
    Running,
}

/// What the adapter does for one callback.
pub enum AdapterStep<T> {
    /// Run the constructor with the active event loop and keep the handler it returns.
    Construct,
    /// Pass the event to the handler.
    Forward(AppEvent<T>),
    /// Stop: suspension and resumption cycles are not supported.
    SuspendUnsupported,
    /// Stop: the constructor already ran, because the loop resumed a second time.
    ConstructorSpent,
    /// Stop: an event arrived before the handler was constructed.
    HandlerMissing,
}

/// The event that a callback carries to the handler, if it carries one.
pub open spec fn forwarded_event<T>(callback: LoopCallback<T>) -> Option<AppEvent<T>> {
    match callback {
        LoopCallback::WindowEvent(id, event) => Some(AppEvent::WindowEvent(id, event)),
        LoopCallback::DeviceEvent(id, event) => Some(AppEvent::DeviceEvent(id, event)),
        LoopCallback::UserEvent(event) => Some(AppEvent::UserEvent(event)),
        LoopCallback::AboutToWait => Some(AppEvent::Idle),
        LoopCallback::Exiting => Some(AppEvent::Exit),
        _ => None,
    }
}

/// The phase after a callback and the step taken for it.
pub open spec fn adapter_transition<T>(phase: AdapterPhase, callback: LoopCallback<T>) -> (AdapterPhase, AdapterStep<T>) {
    match callback {
        LoopCallback::Resumed => match phase {
            AdapterPhase::AwaitingHandler => (AdapterPhase::Running, AdapterStep::Construct),
            AdapterPhase::Running => (phase, AdapterStep::ConstructorSpent),
        },
        LoopCallback::Suspended => (phase, AdapterStep::SuspendUnsupported),
        _ => match phase {
            AdapterPhase::Running => (phase, AdapterStep::Forward(forwarded_event(callback)->Some_0)),
            AdapterPhase::AwaitingHandler => (phase, AdapterStep::HandlerMissing),
        },
    }
}

/// Decides what the adapter does for one callback of the event loop.
pub fn adapter_step<T>(phase: AdapterPhase, callback: LoopCallback<T>) -> (r: (AdapterPhase, AdapterStep<T>))
    ensures
        r == adapter_transition(phase, callback),
{
    match callback {
        LoopCallback::Resumed => match phase {
            AdapterPhase::AwaitingHandler => (AdapterPhase::Running, AdapterStep::Construct),
            AdapterPhase::Running => (phase, AdapterStep::ConstructorSpent),
        },
        LoopCallback::Suspended => (phase, AdapterStep::SuspendUnsupported),
        LoopCallback::WindowEvent(id, event) => forward_or_missing(phase, AppEvent::WindowEvent(id, event)),
        LoopCallback::DeviceEvent(id, event) => forward_or_missing(phase, AppEvent::DeviceEvent(id, event)),
        LoopCallback::UserEvent(event) => forward_or_missing(phase, AppEvent::UserEvent(event)),
        LoopCallback::AboutToWait => forward_or_missing(phase, AppEvent::Idle),
        LoopCallback::Exiting => forward_or_missing(phase, AppEvent::Exit),
    }
}

fn forward_or_missing<T>(phase: AdapterPhase, event: AppEvent<T>) -> (r: (AdapterPhase, AdapterStep<T>))
    ensures
        r == (match phase {
            AdapterPhase::Running => (phase, AdapterStep::Forward(event)),
            AdapterPhase::AwaitingHandler => (phase, AdapterStep::HandlerMissing),
        }),
{
    match phase {
        AdapterPhase::Running => (phase, AdapterStep::Forward(event)),
        AdapterPhase::AwaitingHandler => (phase, AdapterStep::HandlerMissing),
    }
}

/// The steps taken for a sequence of callbacks, starting in `phase`.
pub open spec fn adapter_run<T>(phase: AdapterPhase, callbacks: Seq<LoopCallback<T>>) -> Seq<AdapterStep<T>>
    decreases callbacks.len(),
{
    if callbacks.len() == 0 {
        Seq::empty()
    } else {
        let (next, step) = adapter_transition(phase, callbacks[0]);
        seq![step] + adapter_run(next, callbacks.drop_first())
    }
}

/// The constructor runs at most once, and only as the first step that is not a stop: no
/// event reaches a handler before the constructor ran, and once constructed the handler
/// stays until the loop ends.
pub proof fn law_constructor_runs_once<T>(callbacks: Seq<LoopCallback<T>>)
    ensures
        forall|i: int, j: int|
            0 <= i < j < callbacks.len() ==> !(#[trigger] adapter_run(AdapterPhase::AwaitingHandler, callbacks)[i] is Construct
                && #[trigger] adapter_run(AdapterPhase::AwaitingHandler, callbacks)[j] is Construct),
        forall|j: int|
            0 <= j < callbacks.len() && (#[trigger] adapter_run(AdapterPhase::AwaitingHandler, callbacks)[j] is Forward) ==> exists|i: int|
                0 <= i < j && #[trigger] adapter_run(AdapterPhase::AwaitingHandler, callbacks)[i] is Construct,
{
    lemma_run_shape(AdapterPhase::AwaitingHandler, callbacks);
}

proof fn lemma_run_shape<T>(phase: AdapterPhase, callbacks: Seq<LoopCallback<T>>)
    ensures
        adapter_run(phase, callbacks).len() == callbacks.len(),
        phase is Running ==> forall|i: int| 0 <= i < callbacks.len() ==> !(#[trigger] adapter_run(phase, callbacks)[i] is Construct),
        phase is AwaitingHandler ==> forall|i: int, j: int|
            0 <= i < j < callbacks.len() ==> !(#[trigger] adapter_run(phase, callbacks)[i] is Construct
                && #[trigger] adapter_run(phase, callbacks)[j] is Construct),
        phase is AwaitingHandler ==> forall|j: int|
            0 <= j < callbacks.len() && (#[trigger] adapter_run(phase, callbacks)[j] is Forward) ==> exists|i: int|
                0 <= i < j && #[trigger] adapter_run(phase, callbacks)[i] is Construct,
    decreases callbacks.len(),
{
    if callbacks.len() > 0 {
        let (next, step) = adapter_transition(phase, callbacks[0]);
        let rest = callbacks.drop_first();
        lemma_run_shape(next, rest);
        let run = adapter_run(phase, callbacks);
        let tail = adapter_run(next, rest);
        assert(run =~= seq![step] + tail);
        assert forall|i: int| 1 <= i < callbacks.len() implies run[i] == tail[i - 1] by {}
        if phase is Running {
            assert(next is Running);
            assert forall|i: int| 0 <= i < callbacks.len() implies !(#[trigger] run[i] is Construct) by {
                if i > 0 {
                    assert(run[i] == tail[i - 1]);
                }
            }
        } else {
            assert forall|i: int, j: int| 0 <= i < j < callbacks.len() implies !(#[trigger] run[i] is Construct
                && #[trigger] run[j] is Construct) by {
                assert(run[j] == tail[j - 1]);
                if i > 0 {
                    assert(run[i] == tail[i - 1]);
                } else if step is Construct {
                    assert(next is Running);
                }
            }
            assert forall|j: int| 0 <= j < callbacks.len() && (#[trigger] run[j] is Forward) implies exists|i: int|
                0 <= i < j && #[trigger] run[i] is Construct by {
                if j > 0 {
                    assert(run[j] == tail[j - 1]);
                    if step is Construct {
                        assert(run[0] is Construct);
                    } else {
                        assert(next is AwaitingHandler);
                        let k = choose|k: int| 0 <= k < j - 1 && #[trigger] tail[k] is Construct;
                        assert(run[k + 1] == tail[k]);
                    }
                }
            }
        }
    }
}


/// Whether a callback carries an event for the handler (it is neither a resumption nor a
/// suspension).
pub open spec fn is_event_callback<T>(callback: LoopCallback<T>) -> bool {
    !(callback is Resumed) && !(callback is Suspended)
}

/// A run that starts with a resumption and then delivers only event callbacks constructs
/// the handler at the first step and forwards each later callback's event once, in order,
/// to that handler.
pub proof fn law_run_forwards_each_event_in_order<T>(callbacks: Seq<LoopCallback<T>>)
    requires
        callbacks.len() > 0,
        callbacks[0] is Resumed,
        forall|i: int| 1 <= i < callbacks.len() ==> is_event_callback(#[trigger] callbacks[i]),
    ensures
        adapter_run(AdapterPhase::AwaitingHandler, callbacks).len() == callbacks.len(),
        adapter_run(AdapterPhase::AwaitingHandler, callbacks)[0] is Construct,
        forall|i: int| 1 <= i < callbacks.len() ==> #[trigger] adapter_run(AdapterPhase::AwaitingHandler, callbacks)[i]
            == AdapterStep::Forward(forwarded_event(callbacks[i])->Some_0),
{
    let rest = callbacks.drop_first();
    assert forall|i: int| 0 <= i < rest.len() implies is_event_callback(#[trigger] rest[i]) by {
        assert(rest[i] == callbacks[i + 1]);
    }
    lemma_running_forwards(rest);
    lemma_run_shape(AdapterPhase::AwaitingHandler, callbacks);
    let run = adapter_run(AdapterPhase::AwaitingHandler, callbacks);
    let tail = adapter_run(AdapterPhase::Running, rest);
    assert(run =~= seq![AdapterStep::<T>::Construct] + tail);
    assert forall|i: int| 1 <= i < callbacks.len() implies #[trigger] run[i]
        == AdapterStep::Forward(forwarded_event(callbacks[i])->Some_0) by {
        assert(run[i] == tail[i - 1]);
        assert(rest[i - 1] == callbacks[i]);
    }
}

proof fn lemma_running_forwards<T>(callbacks: Seq<LoopCallback<T>>)
    requires
        forall|i: int| 0 <= i < callbacks.len() ==> is_event_callback(#[trigger] callbacks[i]),
    ensures
        adapter_run(AdapterPhase::Running, callbacks).len() == callbacks.len(),
        forall|i: int| 0 <= i < callbacks.len() ==> #[trigger] adapter_run(AdapterPhase::Running, callbacks)[i]
            == AdapterStep::Forward(forwarded_event(callbacks[i])->Some_0),
    decreases callbacks.len(),
{
    if callbacks.len() > 0 {
        let rest = callbacks.drop_first();
        assert forall|i: int| 0 <= i < rest.len() implies is_event_callback(#[trigger] rest[i]) by {
            assert(rest[i] == callbacks[i + 1]);
        }
        lemma_running_forwards(rest);
        assert(is_event_callback(callbacks[0]));
        let run = adapter_run(AdapterPhase::Running, callbacks);
        let tail = adapter_run(AdapterPhase::Running, rest);
        assert(run =~= seq![AdapterStep::Forward(forwarded_event(callbacks[0])->Some_0)] + tail);
        assert forall|i: int| 0 <= i < callbacks.len() implies #[trigger] run[i]
            == AdapterStep::Forward(forwarded_event(callbacks[i])->Some_0) by {
            if i > 0 {
                assert(run[i] == tail[i - 1]);
                assert(rest[i - 1] == callbacks[i]);
            }
        }
    }
}

/// Every event-carrying callback reaches a constructed handler unchanged, and suspension
/// is never served.
pub proof fn law_events_forwarded_unchanged<T>(phase: AdapterPhase, callback: LoopCallback<T>)
    ensures
        phase is Running && forwarded_event(callback) is Some ==> adapter_transition(phase, callback)
            == (AdapterPhase::Running, AdapterStep::Forward(forwarded_event(callback)->Some_0)),
        callback is Suspended ==> adapter_transition(phase, callback).1 is SuspendUnsupported,
        !(callback is Resumed) ==> adapter_transition(phase, callback).0 == phase,
{
}

/// Once the handler is constructed, each event callback becomes the matching event: a
/// window event with its window, a device event with its device, a user event, `Idle` when
/// the loop is about to wait, and `Exit` when it exits.
pub proof fn law_callbacks_map_to_their_events<T>(
    window: WindowId,
    window_event: WindowEvent,
    device: DeviceId,
    device_event: DeviceEvent,
    user_event: T,
)
    ensures
        adapter_transition(AdapterPhase::Running, LoopCallback::<T>::WindowEvent(window, window_event))
            == (AdapterPhase::Running, AdapterStep::<T>::Forward(AppEvent::WindowEvent(window, window_event))),
        adapter_transition(AdapterPhase::Running, LoopCallback::<T>::DeviceEvent(device, device_event))
            == (AdapterPhase::Running, AdapterStep::<T>::Forward(AppEvent::DeviceEvent(device, device_event))),
        adapter_transition(AdapterPhase::Running, LoopCallback::UserEvent(user_event))
            == (AdapterPhase::Running, AdapterStep::Forward(AppEvent::UserEvent(user_event))),
        adapter_transition(AdapterPhase::Running, LoopCallback::<T>::AboutToWait)
            == (AdapterPhase::Running, AdapterStep::<T>::Forward(AppEvent::Idle)),
        adapter_transition(AdapterPhase::Running, LoopCallback::<T>::Exiting)
            == (AdapterPhase::Running, AdapterStep::<T>::Forward(AppEvent::Exit)),
        adapter_transition(AdapterPhase::AwaitingHandler, LoopCallback::<T>::Resumed)
            == (AdapterPhase::Running, AdapterStep::<T>::Construct),
{
}

} // verus!
