//! The creation of an instance, as the decisions between the calls into
//! the driver.
//!
//! Whoever holds the driver performs the action that a step returns and
//! hands back what came of it as the next event. The candidates are
//! attempted in their order and the first that succeeds wins. Nothing
//! native is made before the negotiation of capabilities has succeeded,
//! and whatever an attempt has made is released before the next one begins
//! or the failure is reported.

use vstd::prelude::*;

use super::capability::{
    covers, negotiate, negotiated, Capabilities, Enabled, EnabledView, Request, RequestView,
    Supported, SupportedView,
};
use super::instance::{Instance, InstanceInfo, InstanceView};
use super::vk::{PhysicalDevice, VkResult};
use super::{release_order, release_steps, Backend, Error, IntoError, Release};

verus! {

/// The backends in the order in which they are attempted.
pub open spec fn priority() -> Seq<Backend> {
    seq![Backend::Vulkan]
}

/// What a backend asks of its driver.
pub open spec fn request_of(backend: Backend) -> RequestView {
    match backend {
        Backend::Vulkan => super::vk::vulkan_request(),
    }
}

/// The place in the taxonomy of a result code of a backend's driver.
pub open spec fn native_error(backend: Backend, code: i32) -> Error {
    match backend {
        Backend::Vulkan => super::vk::error_of(code),
    }
}

/// The application as the driver is told of it.
#[derive(Debug, Clone, Copy)]
pub struct Application<'a> {
    /// The name of the application.
    pub name: &'a str,
    /// The version of the application, packed as the backend's driver
    /// reads it.
    pub version: u32,
}

/// The application of an instance as a backend's driver is told of it.
pub open spec fn application_of<'a>(backend: Backend, info: InstanceInfo<'a>) -> Option<
    Application<'a>,
> {
    match info.app_info {
        Some(app) => Some(
            Application {
                name: app.name,
                version: match backend {
                    Backend::Vulkan => super::vk::packed(app.version),
                },
            },
        ),
        None => None,
    }
}

/// What the driver is asked when the native instance is created.
pub struct CreateInfo<'a> {
    pub application: Option<Application<'a>>,
    /// The names of the layers to enable.
    pub layers: Vec<Vec<u8>>,
    /// The names of the extensions to enable.
    pub extensions: Vec<Vec<u8>>,
}

pub struct CreateInfoView<'a> {
    pub application: Option<Application<'a>>,
    pub layers: Seq<Seq<u8>>,
    pub extensions: Seq<Seq<u8>>,
}

impl<'a> View for CreateInfo<'a> {
    type V = CreateInfoView<'a>;

    open spec fn view(&self) -> CreateInfoView<'a> {
        CreateInfoView {
            application: self.application,
            layers: super::capability::names(self.layers@),
            extensions: super::capability::names(self.extensions@),
        }
    }
}

/// What the creation waits for.
#[derive(Debug, Clone, Copy)]
pub enum Phase {
    /// For the backend's entry points to be loaded.
    Loading,
    /// For the driver's layers and extensions.
    Querying,
    /// For the native instance.
    Creating { active: Capabilities },
    /// For the messenger of the diagnostics channel.
    Arming { active: Capabilities, instance: u64 },
    /// For the physical devices.
    Listing { active: Capabilities, instance: u64, messenger: Option<u64> },
    /// For the release of what a failed attempt had made.
    Unwinding { error: Error },
    /// For nothing: the creation is over.
    Finished,
}

/// What came of an action.
pub enum Event {
    /// The backend's entry points are loaded.
    Loaded,
    /// The backend's entry points cannot be loaded.
    LoadFailed,
    /// The driver offers these layers and extensions.
    Offered(Supported),
    /// The driver failed to say what it offers.
    QueryFailed(i32),
    /// The native instance exists, under this handle.
    Created(u64),
    /// The driver failed to create the native instance.
    CreateFailed(i32),
    /// The messenger exists, under this handle.
    Armed(u64),
    /// The driver failed to create the messenger.
    ArmFailed(i32),
    /// The instance has these physical devices.
    Listed(Vec<PhysicalDevice>),
    /// The driver failed to list the physical devices.
    ListFailed(i32),
    /// The native objects are destroyed.
    Released,
}

pub enum EventView {
    Loaded,
    LoadFailed,
    Offered(SupportedView),
    QueryFailed(i32),
    Created(u64),
    CreateFailed(i32),
    Armed(u64),
    ArmFailed(i32),
    Listed(Seq<PhysicalDevice>),
    ListFailed(i32),
    Released,
}

impl View for Event {
    type V = EventView;

    open spec fn view(&self) -> EventView {
        match self {
            Event::Loaded => EventView::Loaded,
            Event::LoadFailed => EventView::LoadFailed,
            Event::Offered(supported) => EventView::Offered(supported@),
            Event::QueryFailed(code) => EventView::QueryFailed(*code),
            Event::Created(handle) => EventView::Created(*handle),
            Event::CreateFailed(code) => EventView::CreateFailed(*code),
            Event::Armed(handle) => EventView::Armed(*handle),
            Event::ArmFailed(code) => EventView::ArmFailed(*code),
            Event::Listed(devices) => EventView::Listed(devices@),
            Event::ListFailed(code) => EventView::ListFailed(*code),
            Event::Released => EventView::Released,
        }
    }
}

/// What to do next.
pub enum Action<'a> {
    /// Load the backend's entry points.
    Load(Backend),
    /// Ask the driver for its layers and extensions.
    Query(Backend),
    /// Create the native instance.
    Create(Backend, CreateInfo<'a>),
    /// Create the messenger of the diagnostics channel of this instance.
    Arm(Backend, u64),
    /// List the physical devices of this instance.
    List(Backend, u64),
    /// Destroy these native objects, in this order.
    Release(Backend, Vec<Release>),
    /// Nothing more: the instance is made.
    Ready(Instance),
    /// Nothing more: no instance can be made.
    Fail(Error),
    /// Nothing: the event was not the one awaited.
    Ignore,
}

pub enum ActionView<'a> {
    Load(Backend),
    Query(Backend),
    Create(Backend, CreateInfoView<'a>),
    Arm(Backend, u64),
    List(Backend, u64),
    Release(Backend, Seq<Release>),
    Ready(InstanceView),
    Fail(Error),
    Ignore,
}

impl<'a> View for Action<'a> {
    type V = ActionView<'a>;

    open spec fn view(&self) -> ActionView<'a> {
        match self {
            Action::Load(backend) => ActionView::Load(*backend),
            Action::Query(backend) => ActionView::Query(*backend),
            Action::Create(backend, info) => ActionView::Create(*backend, info@),
            Action::Arm(backend, instance) => ActionView::Arm(*backend, *instance),
            Action::List(backend, instance) => ActionView::List(*backend, *instance),
            Action::Release(backend, steps) => ActionView::Release(*backend, steps@),
            Action::Ready(instance) => ActionView::Ready(instance@),
            Action::Fail(error) => ActionView::Fail(*error),
            Action::Ignore => ActionView::Ignore,
        }
    }
}

/// A creation under way.
pub struct Creation<'a> {
    info: InstanceInfo<'a>,
    candidates: Vec<Backend>,
    exact: bool,
    at: usize,
    phase: Phase,
}

pub struct CreationView<'a> {
    /// What the instance is asked to be.
    pub info: InstanceInfo<'a>,
    /// The backends to attempt, in this order.
    pub candidates: Seq<Backend>,
    /// Whether the failure of the last attempt is reported as it is; else
    /// it is reported as `NotSupported`.
    pub exact: bool,
    /// The place of the backend that is being attempted.
    pub at: int,
    pub phase: Phase,
}

impl<'a> CreationView<'a> {
    /// While the creation is not over a backend is being attempted.
    pub open spec fn well_formed(self) -> bool {
        self.phase is Finished || 0 <= self.at < self.candidates.len()
    }

    /// The backend that is being attempted.
    pub open spec fn backend(self) -> Backend {
        self.candidates[self.at]
    }

    pub open spec fn in_phase(self, phase: Phase) -> CreationView<'a> {
        CreationView { phase, ..self }
    }
}

impl<'a> View for Creation<'a> {
    type V = CreationView<'a>;

    closed spec fn view(&self) -> CreationView<'a> {
        CreationView {
            info: self.info,
            candidates: self.candidates@,
            exact: self.exact,
            at: self.at as int,
            phase: self.phase,
        }
    }
}

/// The beginning of a creation: the first candidate's entry points are to
/// be loaded, and without a candidate nothing is supported.
pub open spec fn begun<'a>(info: InstanceInfo<'a>, candidates: Seq<Backend>, exact: bool) -> (
    CreationView<'a>,
    ActionView<'a>,
) {
    if candidates.len() == 0 {
        (
            CreationView { info, candidates, exact, at: 0, phase: Phase::Finished },
            ActionView::Fail(Error::NotSupported),
        )
    } else {
        (
            CreationView { info, candidates, exact, at: 0, phase: Phase::Loading },
            ActionView::Load(candidates[0]),
        )
    }
}

/// The attempt on the current backend is over and nothing native is left
/// of it: the next candidate is attempted, and after the last one the
/// failure is reported.
pub open spec fn given_up<'a>(state: CreationView<'a>, error: Error) -> (
    CreationView<'a>,
    ActionView<'a>,
) {
    if state.at + 1 < state.candidates.len() {
        (
            CreationView { at: state.at + 1, phase: Phase::Loading, ..state },
            ActionView::Load(state.candidates[state.at + 1]),
        )
    } else {
        (
            state.in_phase(Phase::Finished),
            ActionView::Fail(
                if state.exact {
                    error
                } else {
                    Error::NotSupported
                },
            ),
        )
    }
}

/// The attempt on the current backend has failed after the native
/// instance was made: what it made is released first.
pub open spec fn unwound<'a>(
    state: CreationView<'a>,
    error: Error,
    messenger: Option<u64>,
    instance: u64,
) -> (CreationView<'a>, ActionView<'a>) {
    (
        state.in_phase(Phase::Unwinding { error }),
        ActionView::Release(state.backend(), release_order(messenger, instance)),
    )
}

/// What the driver is asked when the native instance is created.
pub open spec fn create_info<'a>(backend: Backend, info: InstanceInfo<'a>, enabled: EnabledView) -> CreateInfoView<
    'a,
> {
    CreateInfoView {
        application: application_of(backend, info),
        layers: enabled.layers,
        extensions: enabled.extensions,
    }
}

/// One step of a creation: the state after an event, and what to do next.
pub open spec fn stepped<'a>(state: CreationView<'a>, event: EventView) -> (
    CreationView<'a>,
    ActionView<'a>,
) {
    let backend = state.backend();
    match (state.phase, event) {
        (Phase::Loading, EventView::Loaded) => (
            state.in_phase(Phase::Querying),
            ActionView::Query(backend),
        ),
        (Phase::Loading, EventView::LoadFailed) => given_up(state, Error::NotSupported),
        (Phase::Querying, EventView::Offered(supported)) => match negotiated(
            state.info.validation,
            state.info.debug,
            request_of(backend),
            supported,
        ) {
            Ok(enabled) => (
                state.in_phase(Phase::Creating { active: enabled.active }),
                ActionView::Create(backend, create_info(backend, state.info, enabled)),
            ),
            Err(error) => given_up(state, error),
        },
        (Phase::Querying, EventView::QueryFailed(code)) => given_up(
            state,
            native_error(backend, code),
        ),
        (Phase::Creating { active }, EventView::Created(instance)) => if active.debug {
            (state.in_phase(Phase::Arming { active, instance }), ActionView::Arm(backend, instance))
        } else {
            (
                state.in_phase(Phase::Listing { active, instance, messenger: None }),
                ActionView::List(backend, instance),
            )
        },
        (Phase::Creating { active }, EventView::CreateFailed(code)) => given_up(
            state,
            native_error(backend, code),
        ),
        (Phase::Arming { active, instance }, EventView::Armed(messenger)) => (
            state.in_phase(Phase::Listing { active, instance, messenger: Some(messenger) }),
            ActionView::List(backend, instance),
        ),
        (Phase::Arming { active, instance }, EventView::ArmFailed(code)) => unwound(
            state,
            native_error(backend, code),
            None,
            instance,
        ),
        (Phase::Listing { active, instance, messenger }, EventView::Listed(devices)) => if devices.len()
            == 0 {
            unwound(state, Error::NotSupported, messenger, instance)
        } else {
            (
                state.in_phase(Phase::Finished),
                ActionView::Ready(
                    InstanceView { backend, handle: instance, devices, messenger, active },
                ),
            )
        },
        (Phase::Listing { active, instance, messenger }, EventView::ListFailed(code)) => unwound(
            state,
            native_error(backend, code),
            messenger,
            instance,
        ),
        (Phase::Unwinding { error }, EventView::Released) => given_up(state, error),
        _ => (state, ActionView::Ignore),
    }
}

/// The native instance is asked for only by the step that has seen the
/// negotiation succeed, and then with what the negotiation enabled.
pub proof fn create_follows_negotiation<'a>(state: CreationView<'a>, event: EventView)
    ensures
        stepped(state, event).1 is Create ==> {
            &&& state.phase is Querying
            &&& event is Offered
            &&& negotiated(
                state.info.validation,
                state.info.debug,
                request_of(state.backend()),
                event->Offered_0,
            ) is Ok
            &&& stepped(state, event).1 == ActionView::Create(
                state.backend(),
                create_info(
                    state.backend(),
                    state.info,
                    negotiated(
                        state.info.validation,
                        state.info.debug,
                        request_of(state.backend()),
                        event->Offered_0,
                    )->Ok_0,
                ),
            )
        },
{
}

/// Where the driver lacks what the backend requires, nothing native is
/// asked for: the next candidate is attempted, and after the last one the
/// failure is reported, as `LayerNotPresent` or `ExtensionNotPresent` to
/// whoever asked for that backend alone and as `NotSupported` otherwise.
pub proof fn missing_required_makes_nothing<'a>(state: CreationView<'a>, supported: SupportedView)
    requires
        state.phase is Querying,
        !covers(supported.layers, request_of(state.backend()).required_layers) || !covers(
            supported.extensions,
            request_of(state.backend()).required_extensions,
        ),
    ensures
        stepped(state, EventView::Offered(supported)) == given_up(
            state,
            if !covers(supported.layers, request_of(state.backend()).required_layers) {
                Error::LayerNotPresent
            } else {
                Error::ExtensionNotPresent
            },
        ),
        !(stepped(state, EventView::Offered(supported)).1 is Create),
        state.at + 1 >= state.candidates.len() && state.exact ==> stepped(
            state,
            EventView::Offered(supported),
        ).1 == ActionView::<'a>::Fail(
            if !covers(supported.layers, request_of(state.backend()).required_layers) {
                Error::LayerNotPresent
            } else {
                Error::ExtensionNotPresent
            },
        ),
{
}

/// Where the driver offers what the backend requires and neither of the
/// optional capabilities, the creation goes on without them: the native
/// instance is asked for with the required names alone, no messenger is
/// asked for, and the instance that is made of at least one physical
/// device reports both capabilities as inactive.
pub proof fn missing_optional_is_left_out<'a>(
    state: CreationView<'a>,
    supported: SupportedView,
    handle: u64,
    devices: Seq<PhysicalDevice>,
)
    requires
        state.phase is Querying,
        covers(supported.layers, request_of(state.backend()).required_layers),
        covers(supported.extensions, request_of(state.backend()).required_extensions),
        !supported.layers.contains(request_of(state.backend()).validation_layer),
        !supported.extensions.contains(request_of(state.backend()).debug_extension),
        devices.len() >= 1,
    ensures
        ({
            let backend = state.backend();
            let inactive = Capabilities { validation: false, debug: false };
            let asked = stepped(state, EventView::Offered(supported));
            let made = stepped(asked.0, EventView::Created(handle));
            let listed = stepped(made.0, EventView::Listed(devices));
            &&& asked.1 == ActionView::Create(
                backend,
                CreateInfoView {
                    application: application_of(backend, state.info),
                    layers: request_of(backend).required_layers,
                    extensions: request_of(backend).required_extensions,
                },
            )
            &&& made.1 == ActionView::<'a>::List(backend, handle)
            &&& listed.1 == ActionView::<'a>::Ready(
                InstanceView { backend, handle, devices, messenger: None, active: inactive },
            )
            &&& listed.0.phase is Finished
        }),
{
}

/// An instance is made of at least one physical device, and only of the
/// answer to the listing of the devices.
pub proof fn ready_has_devices<'a>(state: CreationView<'a>, event: EventView)
    ensures
        stepped(state, event).1 matches ActionView::Ready(instance) ==> {
            &&& instance.devices.len() >= 1
            &&& state.phase is Listing
            &&& event == EventView::Listed(instance.devices)
            &&& instance.handle == state.phase->Listing_instance
            &&& instance.messenger == state.phase->Listing_messenger
            &&& instance.active == state.phase->Listing_active
        },
{
}

/// What an attempt has made is released before anything else is done: once
/// the native instance exists, a step neither turns to another candidate
/// nor reports a failure, and a release names the instance last.
pub proof fn nothing_made_is_left<'a>(state: CreationView<'a>, event: EventView)
    ensures
        state.phase is Arming || state.phase is Listing ==> !(stepped(state, event).1 is Load)
            && !(stepped(state, event).1 is Fail),
        stepped(state, event).1 matches ActionView::Release(_, steps) ==> {
            &&& state.phase is Arming || state.phase is Listing
            &&& stepped(state, event).0.phase is Unwinding
            &&& steps.len() >= 1
            &&& steps.last() == Release::Instance(
                if state.phase is Arming {
                    state.phase->Arming_instance
                } else {
                    state.phase->Listing_instance
                },
            )
        },
{
}

/// How far a creation is from its end at most, in steps.
pub open spec fn remaining<'a>(state: CreationView<'a>) -> int {
    match state.phase {
        Phase::Finished => 0,
        Phase::Unwinding { .. } => 7 * (state.candidates.len() - state.at) - 5,
        Phase::Listing { .. } => 7 * (state.candidates.len() - state.at) - 4,
        Phase::Arming { .. } => 7 * (state.candidates.len() - state.at) - 3,
        Phase::Creating { .. } => 7 * (state.candidates.len() - state.at) - 2,
        Phase::Querying => 7 * (state.candidates.len() - state.at) - 1,
        Phase::Loading => 7 * (state.candidates.len() - state.at),
    }
}

/// Every event that is awaited brings the creation nearer to its end, and
/// one that is not awaited changes nothing: the creation is over after at
/// most seven awaited events for each candidate.
pub proof fn a_step_brings_the_end_nearer<'a>(state: CreationView<'a>, event: EventView)
    requires
        state.well_formed(),
    ensures
        stepped(state, event).0.well_formed(),
        stepped(state, event).1 is Ignore ==> stepped(state, event).0 == state,
        !(stepped(state, event).1 is Ignore) ==> 0 <= remaining(stepped(state, event).0)
            < remaining(state),
        remaining(state) == 0 <==> state.phase is Finished,
        stepped(state, event).1 is Ready || stepped(state, event).1 is Fail <==> !(state.phase
            is Finished) && stepped(state, event).0.phase is Finished,
{
}

/// A creation that is over stays over, and asks for nothing.
pub proof fn finished_stays_finished<'a>(state: CreationView<'a>, event: EventView)
    requires
        state.phase is Finished,
    ensures
        stepped(state, event) == (state, ActionView::<'a>::Ignore),
{
}

/// The backends in the order in which they are attempted.
pub fn backends() -> (candidates: Vec<Backend>)
    ensures
        candidates@ == priority(),
{
    let mut candidates: Vec<Backend> = Vec::new();
    candidates.push(Backend::Vulkan);
    assert(candidates@ =~= priority());
    candidates
}

fn request_for(backend: Backend) -> (request: Request)
    ensures
        request@ == request_of(backend),
{
    match backend {
        Backend::Vulkan => super::vk::request(),
    }
}

fn error_for(backend: Backend, code: i32) -> (error: Error)
    ensures
        error == native_error(backend, code),
{
    match backend {
        Backend::Vulkan => VkResult(code).into_error(),
    }
}

fn application_for<'a>(backend: Backend, info: InstanceInfo<'a>) -> (application: Option<
    Application<'a>,
>)
    ensures
        application == application_of(backend, info),
{
    match info.app_info {
        Some(app) => Some(
            Application {
                name: app.name,
                version: match backend {
                    Backend::Vulkan => super::vk::pack(app.version),
                },
            },
        ),
        None => None,
    }
}

impl<'a> Creation<'a> {
    #[verifier::type_invariant]
    spec fn well_formed(self) -> bool {
        self.phase is Finished || self.at < self.candidates.len()
    }

    /// Begins the creation of an instance of one of `candidates`.
    pub fn begin(info: &InstanceInfo<'a>, candidates: Vec<Backend>, exact: bool) -> (next: (
        Creation<'a>,
        Action<'a>,
    ))
        ensures
            (next.0@, next.1@) == begun(*info, candidates@, exact),
            next.0@.well_formed(),
    {
        if candidates.len() == 0 {
            (
                Creation { info: *info, candidates, exact, at: 0, phase: Phase::Finished },
                Action::Fail(Error::NotSupported),
            )
        } else {
            let first = candidates[0];
            (
                Creation { info: *info, candidates, exact, at: 0, phase: Phase::Loading },
                Action::Load(first),
            )
        }
    }

    /// Whether the creation is over.
    pub fn is_finished(&self) -> (finished: bool)
        ensures
            finished == (self@.phase is Finished),
    {
        match self.phase {
            Phase::Finished => true,
            _ => false,
        }
    }

    fn give_up(self, error: Error) -> (next: (Creation<'a>, Action<'a>))
        requires
            !(self@.phase is Finished),
        ensures
            (next.0@, next.1@) == given_up(self@, error),
            next.0@.well_formed(),
    {
        proof {
            use_type_invariant(&self);
        }
        let Creation { info, candidates, exact, at, phase } = self;
        if at + 1 < candidates.len() {
            let backend = candidates[at + 1];
            (
                Creation { info, candidates, exact, at: at + 1, phase: Phase::Loading },
                Action::Load(backend),
            )
        } else {
            let reported = if exact {
                error
            } else {
                Error::NotSupported
            };
            (
                Creation { info, candidates, exact, at, phase: Phase::Finished },
                Action::Fail(reported),
            )
        }
    }

    fn unwind(self, error: Error, messenger: Option<u64>, instance: u64) -> (next: (
        Creation<'a>,
        Action<'a>,
    ))
        requires
            !(self@.phase is Finished),
        ensures
            (next.0@, next.1@) == unwound(self@, error, messenger, instance),
            next.0@.well_formed(),
    {
        proof {
            use_type_invariant(&self);
        }
        let Creation { info, candidates, exact, at, phase } = self;
        let backend = candidates[at];
        (
            Creation { info, candidates, exact, at, phase: Phase::Unwinding { error } },
            Action::Release(backend, release_steps(messenger, instance)),
        )
    }

    fn proceed(self, phase: Phase, action: Action<'a>) -> (next: (Creation<'a>, Action<'a>))
        requires
            !(self@.phase is Finished),
        ensures
            next.0@ == self@.in_phase(phase),
            next.1 == action,
            next.0@.well_formed(),
    {
        proof {
            use_type_invariant(&self);
        }
        let Creation { info, candidates, exact, at, phase: _ } = self;
        if let Phase::Finished = phase {
            (Creation { info, candidates, exact, at, phase: Phase::Finished }, action)
        } else {
            (Creation { info, candidates, exact, at, phase }, action)
        }
    }

    /// Takes what came of the last action and says what to do next.
    pub fn step(self, event: Event) -> (next: (Creation<'a>, Action<'a>))
        ensures
            (next.0@, next.1@) == stepped(self@, event@),
            next.0@.well_formed(),
    {
        proof {
            use_type_invariant(&self);
        }
        if self.is_finished() {
            return (self, Action::Ignore);
        }
        let backend = self.candidates[self.at];
        match (self.phase, event) {
            (Phase::Loading, Event::Loaded) => self.proceed(
                Phase::Querying,
                Action::Query(backend),
            ),
            (Phase::Loading, Event::LoadFailed) => self.give_up(Error::NotSupported),
            (Phase::Querying, Event::Offered(supported)) => {
                match negotiate(
                    self.info.validation,
                    self.info.debug,
                    request_for(backend),
                    &supported,
                ) {
                    Ok(enabled) => {
                        let Enabled { layers, extensions, active } = enabled;
                        let info = CreateInfo {
                            application: application_for(backend, self.info),
                            layers,
                            extensions,
                        };
                        self.proceed(Phase::Creating { active }, Action::Create(backend, info))
                    },
                    Err(error) => self.give_up(error),
                }
            },
            (Phase::Querying, Event::QueryFailed(code)) => self.give_up(error_for(backend, code)),
            (Phase::Creating { active }, Event::Created(instance)) => {
                if active.debug {
                    self.proceed(Phase::Arming { active, instance }, Action::Arm(backend, instance))
                } else {
                    self.proceed(
                        Phase::Listing { active, instance, messenger: None },
                        Action::List(backend, instance),
                    )
                }
            },
            (Phase::Creating { active }, Event::CreateFailed(code)) => self.give_up(
                error_for(backend, code),
            ),
            (Phase::Arming { active, instance }, Event::Armed(messenger)) => self.proceed(
                Phase::Listing { active, instance, messenger: Some(messenger) },
                Action::List(backend, instance),
            ),
            (Phase::Arming { active, instance }, Event::ArmFailed(code)) => self.unwind(
                error_for(backend, code),
                None,
                instance,
            ),
            (Phase::Listing { active, instance, messenger }, Event::Listed(devices)) => {
                match Instance::of(backend, active, instance, messenger, devices) {
                    Ok(made) => self.proceed(Phase::Finished, Action::Ready(made)),
                    Err(error) => self.unwind(error, messenger, instance),
                }
            },
            (Phase::Listing { active, instance, messenger }, Event::ListFailed(code)) => self.unwind(
                error_for(backend, code),
                messenger,
                instance,
            ),
            (Phase::Unwinding { error }, Event::Released) => self.give_up(error),
            _ => (self, Action::Ignore),
        }
    }
}

} // verus!
