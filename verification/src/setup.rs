//! How a scheduler is started and how a worker thread is created: the order
//! of the system calls, and what is given back when one of them fails.
use crate::platform::{
    BOOL, DWORD, FALSE, HANDLE, NULL, PROC_THREAD_ATTRIBUTE_UMS_THREAD,
    STACK_SIZE_PARAM_IS_A_RESERVATION, TRUE, UMS_VERSION,
};
use crate::scheduler::{SchedulerModel, SchedulerState};
use crate::win_result::WinResult;
use std::collections::VecDeque;
use std::io;
use vstd::prelude::*;

verus! {

/// How much of the address space the stack of a worker thread takes.
pub const WORKER_STACK_SIZE: usize = 0x10_0000;

/// How many attributes a worker thread is created with.
pub const WORKER_ATTRIBUTE_COUNT: DWORD = 1;

/// Something to give back to the system.
#[derive(Copy, Clone, Debug, PartialEq, Eq, Structural)]
pub enum Resource {
    CompletionList(usize),
    ThreadContext(usize),
    AttributeList(usize),
}

/// What a new worker thread is tied to.
#[derive(Copy, Clone, Debug, PartialEq, Eq, Structural)]
pub struct WorkerAttributes {
    pub ums_version: DWORD,
    pub ums_context: usize,
    pub ums_completion_list: usize,
}

/// The calls of the creation of a worker thread, in their order.
#[derive(Copy, Clone, Debug, PartialEq, Eq, Structural)]
pub enum ThreadSetupCall {
    NotStarted,
    CreateContext,
    MeasureAttributes,
    InitializeAttributes,
    UpdateAttribute,
    CreateThread,
    CloseHandle,
    Over,
}

/// The creation of a worker thread: how far it has come, and what it has
/// taken from the system and has to give back when it ends.
#[derive(Copy, Clone, Debug, PartialEq, Eq, Structural)]
pub struct ThreadSetup {
    /// The call whose outcome comes next.
    pub call: ThreadSetupCall,
    pub ums_completion_list: usize,
    pub ums_thread_context: Option<usize>,
    pub attr_list: Option<usize>,
}

/// The next call of the creation of a worker thread.
#[derive(Debug)]
pub enum ThreadSetupStep {
    /// Create a thread context.
    CreateContext,
    /// Ask how large a list of this many attributes is.
    MeasureAttributes { attribute_count: DWORD },
    /// Prepare a list of this many attributes in this many zeroed bytes.
    InitializeAttributes { attribute_count: DWORD, attr_list_size: usize },
    /// Put an attribute with this value on the list.
    UpdateAttribute { attr_list: usize, attribute: usize, value: WorkerAttributes },
    /// Create the thread.
    CreateThread { stack_size: usize, creation_flags: DWORD, attr_list: usize },
    /// Close the handle of the thread.
    CloseHandle { handle: HANDLE },
    /// Nothing: this is the outcome.
    Done(Result<usize, io::Error>),
}

/// What the last call of the creation of a worker thread returned and wrote.
#[derive(Copy, Clone, Debug, PartialEq, Eq, Structural)]
pub enum ThreadSetupInput {
    /// There was no call yet.
    Started,
    ContextCreated { returned: BOOL, ums_thread_context: usize },
    AttributesMeasured { returned: BOOL, attr_list_size: usize },
    AttributesInitialized { returned: BOOL, attr_list: usize },
    AttributeUpdated { returned: BOOL },
    ThreadCreated { handle: HANDLE },
    HandleClosed { returned: BOOL },
}

impl ThreadSetup {
    /// Nothing has been taken.
    pub open spec fn empty_handed(self) -> bool {
        self.ums_thread_context is None && self.attr_list is None
    }

    /// What is to be given back, the first one first: the reverse of the
    /// order in which it was taken.
    pub open spec fn held(self) -> Seq<Resource> {
        (match self.attr_list {
            Some(attr_list) => seq![Resource::AttributeList(attr_list)],
            None => seq![],
        }) + (match self.ums_thread_context {
            Some(context) => seq![Resource::ThreadContext(context)],
            None => seq![],
        })
    }

    /// Nothing has been done.
    pub open spec fn is_new(self) -> bool {
        self.call is NotStarted && self.empty_handed()
    }

    /// Whether the input can come now: it tells of the call that was made
    /// last. The question for the size of the list is one that the system
    /// answers by failing.
    pub open spec fn accepts(self, input: ThreadSetupInput) -> bool {
        match input {
            ThreadSetupInput::Started => self.is_new(),
            ThreadSetupInput::ContextCreated { returned, .. } => {
                &&& self.call is CreateContext
                &&& self.empty_handed()
                &&& returned.returnable()
            },
            ThreadSetupInput::AttributesMeasured { returned, attr_list_size } => {
                &&& self.call is MeasureAttributes
                &&& self.ums_thread_context is Some
                &&& self.attr_list is None
                &&& returned == FALSE
                &&& attr_list_size != 0
            },
            ThreadSetupInput::AttributesInitialized { returned, .. } => {
                &&& self.call is InitializeAttributes
                &&& self.ums_thread_context is Some
                &&& self.attr_list is None
                &&& returned.returnable()
            },
            ThreadSetupInput::AttributeUpdated { returned } => {
                &&& self.call is UpdateAttribute
                &&& self.ums_thread_context is Some
                &&& self.attr_list is Some
                &&& returned.returnable()
            },
            ThreadSetupInput::ThreadCreated { .. } => {
                &&& self.call is CreateThread
                &&& self.ums_thread_context is Some
                &&& self.attr_list is Some
            },
            ThreadSetupInput::HandleClosed { returned } => {
                &&& self.call is CloseHandle
                &&& self.ums_thread_context is Some
                &&& self.attr_list is Some
                &&& returned.returnable()
            },
        }
    }

    /// Whether the call that the input reports succeeded. The question for
    /// the size of the list counts as a success.
    pub open spec fn succeeded(input: ThreadSetupInput) -> bool {
        match input {
            ThreadSetupInput::Started => true,
            ThreadSetupInput::ContextCreated { returned, .. } => returned == TRUE,
            ThreadSetupInput::AttributesMeasured { .. } => true,
            ThreadSetupInput::AttributesInitialized { returned, .. } => returned == TRUE,
            ThreadSetupInput::AttributeUpdated { returned } => returned == TRUE,
            ThreadSetupInput::ThreadCreated { handle } => handle.success() is Some,
            ThreadSetupInput::HandleClosed { returned } => returned == TRUE,
        }
    }

    /// The creation after a success, with the next call to come: a context
    /// and a list are kept when they are made, and the context goes to the
    /// caller in the end.
    pub open spec fn advanced(self, input: ThreadSetupInput) -> Self {
        match input {
            ThreadSetupInput::Started => ThreadSetup {
                call: ThreadSetupCall::CreateContext,
                ..self
            },
            ThreadSetupInput::ContextCreated { ums_thread_context, .. } => ThreadSetup {
                call: ThreadSetupCall::MeasureAttributes,
                ums_thread_context: Some(ums_thread_context),
                ..self
            },
            ThreadSetupInput::AttributesMeasured { .. } => ThreadSetup {
                call: ThreadSetupCall::InitializeAttributes,
                ..self
            },
            ThreadSetupInput::AttributesInitialized { attr_list, .. } => ThreadSetup {
                call: ThreadSetupCall::UpdateAttribute,
                attr_list: Some(attr_list),
                ..self
            },
            ThreadSetupInput::AttributeUpdated { .. } => ThreadSetup {
                call: ThreadSetupCall::CreateThread,
                ..self
            },
            ThreadSetupInput::ThreadCreated { .. } => ThreadSetup {
                call: ThreadSetupCall::CloseHandle,
                ..self
            },
            ThreadSetupInput::HandleClosed { .. } => ThreadSetup {
                call: ThreadSetupCall::Over,
                ums_thread_context: None,
                ..self
            },
        }
    }

    /// The call that follows a success.
    pub open spec fn next_step(self, input: ThreadSetupInput) -> ThreadSetupStep {
        match input {
            ThreadSetupInput::Started => ThreadSetupStep::CreateContext,
            ThreadSetupInput::ContextCreated { .. } => ThreadSetupStep::MeasureAttributes {
                attribute_count: WORKER_ATTRIBUTE_COUNT,
            },
            ThreadSetupInput::AttributesMeasured { attr_list_size, .. } => {
                ThreadSetupStep::InitializeAttributes {
                    attribute_count: WORKER_ATTRIBUTE_COUNT,
                    attr_list_size,
                }
            },
            ThreadSetupInput::AttributesInitialized { attr_list, .. } => {
                ThreadSetupStep::UpdateAttribute {
                    attr_list,
                    attribute: PROC_THREAD_ATTRIBUTE_UMS_THREAD,
                    value: WorkerAttributes {
                        ums_version: UMS_VERSION,
                        ums_context: self.ums_thread_context->0,
                        ums_completion_list: self.ums_completion_list,
                    },
                }
            },
            ThreadSetupInput::AttributeUpdated { .. } => ThreadSetupStep::CreateThread {
                stack_size: WORKER_STACK_SIZE,
                creation_flags: STACK_SIZE_PARAM_IS_A_RESERVATION,
                attr_list: self.attr_list->0,
            },
            ThreadSetupInput::ThreadCreated { handle } => ThreadSetupStep::CloseHandle { handle },
            ThreadSetupInput::HandleClosed { .. } => ThreadSetupStep::Done(
                Ok(self.ums_thread_context->0),
            ),
        }
    }

    /// A thread to be created that reports to this completion list.
    pub fn new(ums_completion_list: usize) -> (setup: Self)
        ensures
            setup == (ThreadSetup {
                call: ThreadSetupCall::NotStarted,
                ums_completion_list,
                ums_thread_context: None,
                attr_list: None,
            }),
    {
        ThreadSetup {
            call: ThreadSetupCall::NotStarted,
            ums_completion_list,
            ums_thread_context: None,
            attr_list: None,
        }
    }

    /// Whether the input can come now.
    pub fn can_take(&self, input: ThreadSetupInput) -> (can: bool)
        ensures
            can == self.accepts(input),
    {
        let context: bool = self.ums_thread_context.is_some();
        let list: bool = self.attr_list.is_some();
        match input {
            ThreadSetupInput::Started => self.call == ThreadSetupCall::NotStarted && !context
                && !list,
            ThreadSetupInput::ContextCreated { returned, .. } => self.call
                == ThreadSetupCall::CreateContext && !context && !list
                && returned.can_be_returned(),
            ThreadSetupInput::AttributesMeasured { returned, attr_list_size } => self.call
                == ThreadSetupCall::MeasureAttributes && context && !list && returned == FALSE
                && attr_list_size != 0,
            ThreadSetupInput::AttributesInitialized { returned, .. } => self.call
                == ThreadSetupCall::InitializeAttributes && context && !list
                && returned.can_be_returned(),
            ThreadSetupInput::AttributeUpdated { returned } => self.call
                == ThreadSetupCall::UpdateAttribute && context && list
                && returned.can_be_returned(),
            ThreadSetupInput::ThreadCreated { .. } => self.call == ThreadSetupCall::CreateThread
                && context && list,
            ThreadSetupInput::HandleClosed { returned } => self.call == ThreadSetupCall::CloseHandle
                && context && list && returned.can_be_returned(),
        }
    }

    /// Hands out the next thing to give back.
    pub fn release(&mut self) -> (resource: Option<Resource>)
        ensures
            match resource {
                Some(r) => old(self).held() == seq![r] + final(self).held(),
                None => old(self).held().len() == 0 && final(self).held().len() == 0,
            },
            final(self).ums_completion_list == old(self).ums_completion_list,
            final(self).call == old(self).call,
    {
        let resource: Option<Resource> = match self.attr_list {
            Some(attr_list) => {
                self.attr_list = None;
                Some(Resource::AttributeList(attr_list))
            },
            None => match self.ums_thread_context {
                Some(context) => {
                    self.ums_thread_context = None;
                    Some(Resource::ThreadContext(context))
                },
                None => None,
            },
        };
        resource
    }
}

/// Takes the outcome of the last call of the creation of a worker thread and
/// says which call is next. The first call that fails ends it.
pub fn create_ums_thread(setup: &mut ThreadSetup, input: ThreadSetupInput) -> (step:
    ThreadSetupStep)
    requires
        old(setup).accepts(input),
    ensures
        ThreadSetup::succeeded(input) ==> {
            &&& *final(setup) == old(setup).advanced(input)
            &&& step == old(setup).next_step(input)
        },
        !ThreadSetup::succeeded(input) ==> {
            &&& *final(setup) == (ThreadSetup { call: ThreadSetupCall::Over, ..*old(setup) })
            &&& step matches ThreadSetupStep::Done(Err(e)) && crate::win_result::is_last_error(e)
        },
{
    setup.call = ThreadSetupCall::Over;
    match input {
        ThreadSetupInput::Started => {
            setup.call = ThreadSetupCall::CreateContext;
            ThreadSetupStep::CreateContext
        },
        ThreadSetupInput::ContextCreated { returned, ums_thread_context } => {
            if let Err(e) = returned.result() {
                return ThreadSetupStep::Done(Err(e));
            }
            setup.call = ThreadSetupCall::MeasureAttributes;
            setup.ums_thread_context = Some(ums_thread_context);
            ThreadSetupStep::MeasureAttributes { attribute_count: WORKER_ATTRIBUTE_COUNT }
        },
        ThreadSetupInput::AttributesMeasured { returned, attr_list_size } => {
            returned.unwrap_err::<()>();
            setup.call = ThreadSetupCall::InitializeAttributes;
            ThreadSetupStep::InitializeAttributes {
                attribute_count: WORKER_ATTRIBUTE_COUNT,
                attr_list_size,
            }
        },
        ThreadSetupInput::AttributesInitialized { returned, attr_list } => {
            if let Err(e) = returned.result() {
                return ThreadSetupStep::Done(Err(e));
            }
            setup.call = ThreadSetupCall::UpdateAttribute;
            setup.attr_list = Some(attr_list);
            let ums_context: usize = setup.ums_thread_context.unwrap();
            ThreadSetupStep::UpdateAttribute {
                attr_list,
                attribute: PROC_THREAD_ATTRIBUTE_UMS_THREAD,
                value: WorkerAttributes {
                    ums_version: UMS_VERSION,
                    ums_context,
                    ums_completion_list: setup.ums_completion_list,
                },
            }
        },
        ThreadSetupInput::AttributeUpdated { returned } => {
            if let Err(e) = returned.result() {
                return ThreadSetupStep::Done(Err(e));
            }
            setup.call = ThreadSetupCall::CreateThread;
            ThreadSetupStep::CreateThread {
                stack_size: WORKER_STACK_SIZE,
                creation_flags: STACK_SIZE_PARAM_IS_A_RESERVATION,
                attr_list: setup.attr_list.unwrap(),
            }
        },
        ThreadSetupInput::ThreadCreated { handle } => match handle.result() {
            Ok(handle) => {
                setup.call = ThreadSetupCall::CloseHandle;
                ThreadSetupStep::CloseHandle { handle }
            },
            Err(e) => ThreadSetupStep::Done(Err(e)),
        },
        ThreadSetupInput::HandleClosed { returned } => {
            if let Err(e) = returned.result() {
                return ThreadSetupStep::Done(Err(e));
            }
            let ums_thread_context: usize = setup.ums_thread_context.unwrap();
            setup.ums_thread_context = None;
            ThreadSetupStep::Done(Ok(ums_thread_context))
        },
    }
}

/// The inputs of a creation in which every call succeeds.
pub open spec fn successful_calls(
    ums_thread_context: usize,
    attr_list_size: usize,
    attr_list: usize,
    handle: HANDLE,
) -> Seq<ThreadSetupInput> {
    seq![
        ThreadSetupInput::Started,
        ThreadSetupInput::ContextCreated { returned: TRUE, ums_thread_context },
        ThreadSetupInput::AttributesMeasured { returned: FALSE, attr_list_size },
        ThreadSetupInput::AttributesInitialized { returned: TRUE, attr_list },
        ThreadSetupInput::AttributeUpdated { returned: TRUE },
        ThreadSetupInput::ThreadCreated { handle },
        ThreadSetupInput::HandleClosed { returned: TRUE },
    ]
}

/// The creation after these inputs, all of them successes.
pub open spec fn after_calls(setup: ThreadSetup, inputs: Seq<ThreadSetupInput>) -> ThreadSetup
    decreases inputs.len(),
{
    if inputs.len() == 0 {
        setup
    } else {
        after_calls(setup, inputs.drop_last()).advanced(inputs.last())
    }
}

/// What a creation has to give back after this many inputs: nothing until the
/// context is there, then the context, from the list on the list before the
/// context, and in the end the list alone, because the caller has the context.
pub open spec fn held_after(inputs: int, ums_thread_context: usize, attr_list: usize) -> Seq<
    Resource,
> {
    if inputs <= 1 {
        seq![]
    } else if inputs <= 3 {
        seq![Resource::ThreadContext(ums_thread_context)]
    } else if inputs <= 6 {
        seq![Resource::AttributeList(attr_list), Resource::ThreadContext(ums_thread_context)]
    } else {
        seq![Resource::AttributeList(attr_list)]
    }
}

/// The call whose outcome comes next after this many inputs.
pub open spec fn call_after(inputs: int) -> ThreadSetupCall {
    if inputs <= 0 {
        ThreadSetupCall::NotStarted
    } else if inputs == 1 {
        ThreadSetupCall::CreateContext
    } else if inputs == 2 {
        ThreadSetupCall::MeasureAttributes
    } else if inputs == 3 {
        ThreadSetupCall::InitializeAttributes
    } else if inputs == 4 {
        ThreadSetupCall::UpdateAttribute
    } else if inputs == 5 {
        ThreadSetupCall::CreateThread
    } else if inputs == 6 {
        ThreadSetupCall::CloseHandle
    } else {
        ThreadSetupCall::Over
    }
}

/// What a creation is after this many inputs.
spec fn reached(
    setup: ThreadSetup,
    inputs: int,
    ums_thread_context: usize,
    attr_list: usize,
) -> ThreadSetup {
    ThreadSetup {
        call: call_after(inputs),
        ums_completion_list: setup.ums_completion_list,
        ums_thread_context: if 2 <= inputs <= 6 {
            Some(ums_thread_context)
        } else {
            None
        },
        attr_list: if 4 <= inputs {
            Some(attr_list)
        } else {
            None
        },
    }
}

proof fn lemma_after_calls(
    setup: ThreadSetup,
    ums_thread_context: usize,
    attr_list_size: usize,
    attr_list: usize,
    handle: HANDLE,
    inputs: int,
)
    requires
        setup.is_new(),
        0 <= inputs <= 7,
    ensures
        ({
            let calls = successful_calls(ums_thread_context, attr_list_size, attr_list, handle);
            after_calls(setup, calls.take(inputs)) == reached(
                setup,
                inputs,
                ums_thread_context,
                attr_list,
            )
        }),
    decreases inputs,
{
    let calls = successful_calls(ums_thread_context, attr_list_size, attr_list, handle);
    if inputs > 0 {
        lemma_after_calls(
            setup,
            ums_thread_context,
            attr_list_size,
            attr_list,
            handle,
            inputs - 1,
        );
        assert(calls.take(inputs).drop_last() =~= calls.take(inputs - 1));
        assert(calls.take(inputs).last() == calls[inputs - 1]);
    }
}

/// However far the creation of a thread comes before a call fails, it has
/// exactly that to give back which it has taken and not handed on, the last
/// taken first.
pub proof fn law_creation_gives_back_what_it_took(
    setup: ThreadSetup,
    ums_thread_context: usize,
    attr_list_size: usize,
    attr_list: usize,
    handle: HANDLE,
    inputs: int,
)
    requires
        setup.is_new(),
        0 <= inputs <= 7,
    ensures
        ({
            let calls = successful_calls(ums_thread_context, attr_list_size, attr_list, handle);
            after_calls(setup, calls.take(inputs)).held() == held_after(
                inputs,
                ums_thread_context,
                attr_list,
            )
        }),
{
    lemma_after_calls(setup, ums_thread_context, attr_list_size, attr_list, handle, inputs);
}

/// When every call succeeds, each one follows on the one before, and the
/// outcome is the new thread's context, which is not given back.
pub proof fn law_creation_hands_over_the_context(
    setup: ThreadSetup,
    ums_thread_context: usize,
    attr_list_size: usize,
    attr_list: usize,
    handle: HANDLE,
    inputs: int,
)
    requires
        setup.is_new(),
        attr_list_size != 0,
        handle.success() is Some,
        0 <= inputs < 7,
    ensures
        ({
            let calls = successful_calls(ums_thread_context, attr_list_size, attr_list, handle);
            let reached = after_calls(setup, calls.take(inputs));
            let step = reached.next_step(calls[inputs]);
            &&& reached.accepts(calls[inputs])
            &&& ThreadSetup::succeeded(calls[inputs])
            &&& inputs < 6 ==> !(step is Done)
            &&& inputs == 6 ==> step == ThreadSetupStep::Done(Ok(ums_thread_context))
            &&& !after_calls(setup, calls).held().contains(
                Resource::ThreadContext(ums_thread_context),
            )
        }),
{
    let calls = successful_calls(ums_thread_context, attr_list_size, attr_list, handle);
    lemma_after_calls(setup, ums_thread_context, attr_list_size, attr_list, handle, inputs);
    lemma_after_calls(setup, ums_thread_context, attr_list_size, attr_list, handle, 7);
    assert(calls.take(7) =~= calls);
}

/// Whether the inputs are those of a creation from its start on: each one can
/// come where it comes, and every call before the last succeeded.
pub open spec fn is_connected_creation(setup: ThreadSetup, inputs: Seq<ThreadSetupInput>) -> bool
    decreases inputs.len(),
{
    inputs.len() > 0 ==> {
        let before = inputs.drop_last();
        &&& is_connected_creation(setup, before)
        &&& before.len() > 0 ==> ThreadSetup::succeeded(before.last())
        &&& after_calls(setup, before).accepts(inputs.last())
    }
}

/// The one course of a creation in which every call has succeeded so far.
proof fn lemma_connected_creation(setup: ThreadSetup, inputs: Seq<ThreadSetupInput>)
    requires
        setup.is_new(),
        is_connected_creation(setup, inputs),
        inputs.len() > 0 ==> ThreadSetup::succeeded(inputs.last()),
    ensures
        ({
            let context = inputs[1]->ContextCreated_ums_thread_context;
            let attr_list = inputs[3]->AttributesInitialized_attr_list;
            let calls = successful_calls(
                context,
                inputs[2]->AttributesMeasured_attr_list_size,
                attr_list,
                inputs[5]->handle,
            );
            &&& inputs.len() <= 7
            &&& forall|i: int| 0 <= i < inputs.len() ==> #[trigger] inputs[i] == calls[i]
            &&& inputs.len() > 2 ==> inputs[2]->AttributesMeasured_attr_list_size != 0
            &&& inputs.len() > 5 ==> inputs[5]->handle.success() is Some
            &&& after_calls(setup, inputs) == reached(
                setup,
                inputs.len() as int,
                context,
                attr_list,
            )
        }),
    decreases inputs.len(),
{
    if inputs.len() > 0 {
        let before = inputs.drop_last();
        lemma_connected_creation(setup, before);
        let n = before.len();
        assert forall|i: int| 0 <= i < n implies #[trigger] inputs[i] == before[i] by {}
    }
}

/// A thread is there only when every call succeeded: where the outcome of a
/// creation is a context, its inputs are those of the one course in which the
/// context, the list, the attribute, the thread and the closing of its handle
/// all succeeded, and that context is the one which was created.
pub proof fn law_created_only_when_every_call_succeeded(
    setup: ThreadSetup,
    inputs: Seq<ThreadSetupInput>,
    ums_thread_context: usize,
)
    requires
        setup.is_new(),
        inputs.len() > 0,
        is_connected_creation(setup, inputs),
        ThreadSetup::succeeded(inputs.last()),
        after_calls(setup, inputs.drop_last()).next_step(inputs.last()) == ThreadSetupStep::Done(
            Ok(ums_thread_context),
        ),
    ensures
        ({
            let attr_list_size = inputs[2]->AttributesMeasured_attr_list_size;
            let attr_list = inputs[3]->AttributesInitialized_attr_list;
            let handle = inputs[5]->handle;
            &&& inputs == successful_calls(ums_thread_context, attr_list_size, attr_list, handle)
            &&& attr_list_size != 0
            &&& handle.success() is Some
        }),
{
    lemma_connected_creation(setup, inputs.drop_last());
    lemma_connected_creation(setup, inputs);
}

/// A thread is tied to what was asked for. In every creation that began with a
/// completion list, the attribute that is put on the list of attributes names
/// the context that was created and that very completion list; it is put on
/// the list that was initialized, which has the size that was measured; the
/// thread is created with that list, and its handle is the one that is closed;
/// and the context is what the creation comes to.
pub proof fn law_thread_is_tied_to_what_was_asked_for(
    ums_completion_list: usize,
    inputs: Seq<ThreadSetupInput>,
)
    requires
        inputs.len() > 0,
        is_connected_creation(
            ThreadSetup {
                call: ThreadSetupCall::NotStarted,
                ums_completion_list,
                ums_thread_context: None,
                attr_list: None,
            },
            inputs,
        ),
        ThreadSetup::succeeded(inputs.last()),
    ensures
        ({
            let setup = ThreadSetup {
                call: ThreadSetupCall::NotStarted,
                ums_completion_list,
                ums_thread_context: None,
                attr_list: None,
            };
            let step = after_calls(setup, inputs.drop_last()).next_step(inputs.last());
            match step {
                ThreadSetupStep::CreateContext => inputs.len() == 1,
                ThreadSetupStep::MeasureAttributes { attribute_count } => {
                    inputs.len() == 2 && attribute_count == 1
                },
                ThreadSetupStep::InitializeAttributes { attribute_count, attr_list_size } => {
                    &&& inputs.len() == 3
                    &&& attribute_count == 1
                    &&& inputs[2] == ThreadSetupInput::AttributesMeasured {
                        returned: 0,
                        attr_list_size,
                    }
                },
                ThreadSetupStep::UpdateAttribute { attr_list, attribute, value } => {
                    &&& inputs.len() == 4
                    &&& attribute == 0x0003_0006
                    &&& value.ums_version == 0x0100
                    &&& value.ums_completion_list == ums_completion_list
                    &&& inputs[1] == ThreadSetupInput::ContextCreated {
                        returned: 1,
                        ums_thread_context: value.ums_context,
                    }
                    &&& inputs[3] == ThreadSetupInput::AttributesInitialized {
                        returned: 1,
                        attr_list,
                    }
                },
                ThreadSetupStep::CreateThread { stack_size, creation_flags, attr_list } => {
                    &&& inputs.len() == 5
                    &&& stack_size == 0x10_0000
                    &&& creation_flags == 0x0001_0000
                    &&& inputs[3] == ThreadSetupInput::AttributesInitialized {
                        returned: 1,
                        attr_list,
                    }
                    &&& inputs[4] == ThreadSetupInput::AttributeUpdated { returned: 1 }
                },
                ThreadSetupStep::CloseHandle { handle } => {
                    &&& inputs.len() == 6
                    &&& inputs[5] == ThreadSetupInput::ThreadCreated { handle }
                    &&& handle != 0 && handle != usize::MAX
                },
                ThreadSetupStep::Done(outcome) => {
                    &&& inputs.len() == 7
                    &&& outcome matches Ok(context)
                    &&& inputs[1] == ThreadSetupInput::ContextCreated {
                        returned: 1,
                        ums_thread_context: context,
                    }
                    &&& inputs[6] == ThreadSetupInput::HandleClosed { returned: 1 }
                },
            }
        }),
{
    let setup = ThreadSetup {
        call: ThreadSetupCall::NotStarted,
        ums_completion_list,
        ums_thread_context: None,
        attr_list: None,
    };
    lemma_connected_creation(setup, inputs.drop_last());
    lemma_connected_creation(setup, inputs);
    assert(inputs.last() == inputs[inputs.len() - 1]);
}

/// Every outcome of a call can be told, and nothing else: after the calls that
/// have succeeded so far, the input that can come is that of the next call,
/// with a value that the system returns. The size of the list is what a call
/// that fails gives, and is not zero.
pub proof fn law_every_outcome_of_a_call_is_taken(
    setup: ThreadSetup,
    inputs: Seq<ThreadSetupInput>,
    next: ThreadSetupInput,
)
    requires
        setup.is_new(),
        is_connected_creation(setup, inputs),
        inputs.len() > 0 ==> ThreadSetup::succeeded(inputs.last()),
    ensures
        after_calls(setup, inputs).accepts(next) <==> match next {
            ThreadSetupInput::Started => inputs.len() == 0,
            ThreadSetupInput::ContextCreated { returned, .. } => inputs.len() == 1 && (returned == 0
                || returned == 1),
            ThreadSetupInput::AttributesMeasured { returned, attr_list_size } => inputs.len() == 2
                && returned == 0 && attr_list_size != 0,
            ThreadSetupInput::AttributesInitialized { returned, .. } => inputs.len() == 3 && (
            returned == 0 || returned == 1),
            ThreadSetupInput::AttributeUpdated { returned } => inputs.len() == 4 && (returned == 0
                || returned == 1),
            ThreadSetupInput::ThreadCreated { .. } => inputs.len() == 5,
            ThreadSetupInput::HandleClosed { returned } => inputs.len() == 6 && (returned == 0
                || returned == 1),
        },
{
    lemma_connected_creation(setup, inputs);
}

/// Which calls of a creation count as failed: those that return false, except
/// the question for the size, and a thread whose handle is null or invalid.
pub proof fn law_failed_calls(input: ThreadSetupInput)
    ensures
        ThreadSetup::succeeded(input) <==> match input {
            ThreadSetupInput::Started => true,
            ThreadSetupInput::ContextCreated { returned, .. } => returned == 1,
            ThreadSetupInput::AttributesMeasured { .. } => true,
            ThreadSetupInput::AttributesInitialized { returned, .. } => returned == 1,
            ThreadSetupInput::AttributeUpdated { returned } => returned == 1,
            ThreadSetupInput::ThreadCreated { handle } => handle != 0 && handle != usize::MAX,
            ThreadSetupInput::HandleClosed { returned } => returned == 1,
        },
{
}

/// What a creation has to give back: the list of attributes, if it has one,
/// before the context, if it has one, each as the system gave it.
pub proof fn law_held_is_what_was_taken(setup: ThreadSetup)
    ensures
        setup.held().len() == (if setup.attr_list is Some {
            1int
        } else {
            0
        }) + (if setup.ums_thread_context is Some {
            1int
        } else {
            0
        }),
        setup.attr_list matches Some(list) ==> setup.held()[0] == Resource::AttributeList(list),
        setup.ums_thread_context matches Some(context) ==> setup.held().last()
            == Resource::ThreadContext(context),
{
}

/// The start of a scheduler, with what it has to give back when it ends.
#[derive(Copy, Clone, Debug, PartialEq, Eq, Structural)]
pub struct SchedulerSetup {
    /// The first job, by the address under which the runtime finds it.
    pub job: usize,
    pub ums_completion_list: Option<usize>,
}

/// The next call of the start of a scheduler.
#[derive(Debug)]
pub enum SchedulerSetupStep {
    /// Create a completion list.
    CreateCompletionList,
    /// Turn this thread into the scheduler. It keeps this state.
    EnterSchedulingMode {
        ums_version: DWORD,
        ums_completion_list: usize,
        scheduler_state: SchedulerState,
    },
    /// Nothing: this is the outcome.
    Done(Result<(), io::Error>),
}

/// What the last call of the start of a scheduler returned and wrote.
#[derive(Copy, Clone, Debug, PartialEq, Eq, Structural)]
pub enum SchedulerSetupInput {
    /// There was no call yet.
    Started,
    CompletionListCreated { returned: BOOL, ums_completion_list: usize },
    /// The scheduler ended, or it could not be entered.
    SchedulingModeLeft { returned: BOOL },
}

impl SchedulerSetup {
    /// What is to be given back.
    pub open spec fn held(self) -> Seq<Resource> {
        match self.ums_completion_list {
            Some(list) => seq![Resource::CompletionList(list)],
            None => seq![],
        }
    }

    /// Whether the input can come now.
    pub open spec fn accepts(self, input: SchedulerSetupInput) -> bool {
        match input {
            SchedulerSetupInput::Started => self.ums_completion_list is None,
            SchedulerSetupInput::CompletionListCreated { returned, ums_completion_list } => {
                &&& returned.returnable()
                &&& returned == TRUE ==> ums_completion_list != NULL
                &&& self.ums_completion_list is None
            },
            SchedulerSetupInput::SchedulingModeLeft { returned } => {
                returned.returnable() && self.ums_completion_list is Some
            },
        }
    }

    /// Whether the start goes on like this after the input: with the list it
    /// enters the scheduling mode, for a scheduler that has the first job to
    /// run, and its outcome is that of the first call that fails or of the
    /// scheduling mode.
    pub open spec fn stepped(
        self,
        input: SchedulerSetupInput,
        after: Self,
        step: SchedulerSetupStep,
    ) -> bool {
        match input {
            SchedulerSetupInput::Started => after == self && step is CreateCompletionList,
            SchedulerSetupInput::CompletionListCreated {
                returned,
                ums_completion_list: list,
            } => if returned == TRUE {
                &&& after == SchedulerSetup { ums_completion_list: Some(list), ..self }
                &&& step matches SchedulerSetupStep::EnterSchedulingMode {
                    ums_version,
                    ums_completion_list,
                    scheduler_state,
                }
                &&& ums_version == UMS_VERSION
                &&& ums_completion_list == list
                &&& scheduler_state@ == SchedulerModel::fresh(list, seq![self.job])
            } else {
                &&& after == self
                &&& step matches SchedulerSetupStep::Done(Err(e))
                    && crate::win_result::is_last_error(e)
            },
            SchedulerSetupInput::SchedulingModeLeft { returned } => {
                &&& after == self
                &&& if returned == TRUE {
                    step == SchedulerSetupStep::Done(Ok(()))
                } else {
                    step matches SchedulerSetupStep::Done(Err(e))
                        && crate::win_result::is_last_error(e)
                }
            },
        }
    }

    /// Whether the input can come now.
    pub fn can_take(&self, input: SchedulerSetupInput) -> (can: bool)
        ensures
            can == self.accepts(input),
    {
        match input {
            SchedulerSetupInput::Started => self.ums_completion_list.is_none(),
            SchedulerSetupInput::CompletionListCreated { returned, ums_completion_list } => {
                returned.can_be_returned() && !(returned == TRUE && ums_completion_list == NULL)
                    && self.ums_completion_list.is_none()
            },
            SchedulerSetupInput::SchedulingModeLeft { returned } => returned.can_be_returned()
                && self.ums_completion_list.is_some(),
        }
    }

    /// A scheduler to be started with this job.
    pub fn new(job: usize) -> (setup: Self)
        ensures
            setup == (SchedulerSetup { job, ums_completion_list: None }),
    {
        SchedulerSetup { job, ums_completion_list: None }
    }

    /// Hands out what there is to give back.
    pub fn release(&mut self) -> (resource: Option<Resource>)
        ensures
            match resource {
                Some(r) => old(self).held() == seq![r],
                None => old(self).held().len() == 0,
            },
            *final(self) == (SchedulerSetup { ums_completion_list: None, ..*old(self) }),
    {
        match self.ums_completion_list {
            Some(list) => {
                self.ums_completion_list = None;
                Some(Resource::CompletionList(list))
            },
            None => None,
        }
    }
}

/// Takes the outcome of the last call of the start of a scheduler and says
/// which call is next.
pub fn run_ums_scheduler(setup: &mut SchedulerSetup, input: SchedulerSetupInput) -> (step:
    SchedulerSetupStep)
    requires
        old(setup).accepts(input),
    ensures
        old(setup).stepped(input, *final(setup), step),
{
    match input {
        SchedulerSetupInput::Started => SchedulerSetupStep::CreateCompletionList,
        SchedulerSetupInput::CompletionListCreated { returned, ums_completion_list } => {
            if let Err(e) = returned.result() {
                return SchedulerSetupStep::Done(Err(e));
            }
            setup.ums_completion_list = Some(ums_completion_list);
            let mut queued_jobs: VecDeque<usize> = VecDeque::new();
            queued_jobs.push_back(setup.job);
            assert(queued_jobs@ =~= seq![setup.job]);
            SchedulerSetupStep::EnterSchedulingMode {
                ums_version: UMS_VERSION,
                ums_completion_list,
                scheduler_state: SchedulerState::new(ums_completion_list, queued_jobs),
            }
        },
        SchedulerSetupInput::SchedulingModeLeft { returned } => {
            SchedulerSetupStep::Done(returned.result())
        },
    }
}

/// A scheduler is started with its list and its job. It asks for a completion
/// list first. With that it enters the scheduling mode: the scheduler that it
/// hands over has that list and exactly that job, none of it begun. It has the
/// list to give back from then on. Its outcome is a success if and only if the
/// scheduling mode was left with one, and a failure of either call is reported
/// with nothing more to do.
pub proof fn law_scheduler_is_started_with_its_job(
    setup: SchedulerSetup,
    list: usize,
    returned: BOOL,
    after: SchedulerSetup,
    step: SchedulerSetupStep,
)
    requires
        returned == 0 || returned == 1,
    ensures
        setup.stepped(SchedulerSetupInput::Started, after, step) ==> {
            &&& step is CreateCompletionList
            &&& after == setup
        },
        setup.stepped(
            SchedulerSetupInput::CompletionListCreated { returned, ums_completion_list: list },
            after,
            step,
        ) ==> {
            &&& after.job == setup.job
            &&& returned == 1 ==> {
                &&& after.ums_completion_list == Some(list)
                &&& step matches SchedulerSetupStep::EnterSchedulingMode {
                    ums_version,
                    ums_completion_list,
                    scheduler_state,
                }
                &&& ums_version == 0x0100
                &&& ums_completion_list == list
                &&& scheduler_state.ums_completion_list == list
                &&& scheduler_state.queued_jobs@ == seq![setup.job]
                &&& scheduler_state.total_job_count == 1
                &&& scheduler_state.idle_threads@.len() == 0
                &&& scheduler_state.runnable_threads@.len() == 0
                &&& scheduler_state.thread_count_starting == 0
                &&& scheduler_state.thread_count_total == 0
                &&& scheduler_state.last_execution is None
            }
            &&& returned == 0 ==> after == setup && step matches SchedulerSetupStep::Done(Err(_))
        },
        setup.stepped(SchedulerSetupInput::SchedulingModeLeft { returned }, after, step) ==> {
            &&& after == setup
            &&& step matches SchedulerSetupStep::Done(outcome)
            &&& outcome is Ok <==> returned == 1
        },
{
}

/// What the start of a scheduler takes and gives back: the list is created
/// once, is not null, and is what there is to give back; and the scheduling
/// mode is left only with a list.
pub proof fn law_start_takes_its_calls(setup: SchedulerSetup, returned: BOOL, list: usize)
    ensures
        setup.accepts(SchedulerSetupInput::Started) <==> setup.ums_completion_list is None,
        setup.accepts(
            SchedulerSetupInput::CompletionListCreated { returned, ums_completion_list: list },
        ) <==> setup.ums_completion_list is None && (returned == 0 || returned == 1 && list != 0),
        setup.accepts(SchedulerSetupInput::SchedulingModeLeft { returned }) <==> {
            &&& setup.ums_completion_list is Some
            &&& returned == 0 || returned == 1
        },
        setup.ums_completion_list is None ==> setup.held().len() == 0,
        setup.ums_completion_list == Some(list) ==> setup.held() == seq![
            Resource::CompletionList(list),
        ],
{
}

} // verus!
