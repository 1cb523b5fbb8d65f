use ums::platform::{
    FALSE, INVALID_HANDLE_VALUE, PROC_THREAD_ATTRIBUTE_UMS_THREAD,
    STACK_SIZE_PARAM_IS_A_RESERVATION, TRUE, UMS_VERSION,
};
use ums::setup::{
    create_ums_thread, run_ums_scheduler, Resource, SchedulerSetup, SchedulerSetupInput,
    SchedulerSetupStep, ThreadSetup, ThreadSetupInput, ThreadSetupStep, WorkerAttributes,
};
use ums::measure::{MeasureStep, Measurement};
use ums::walk::{is_subdir, EntryKind, Stack, WalkStep};

const CALLS: [ThreadSetupInput; 7] = [
    ThreadSetupInput::Started,
    ThreadSetupInput::ContextCreated { returned: TRUE, ums_thread_context: 0xA0 },
    ThreadSetupInput::AttributesMeasured { returned: FALSE, attr_list_size: 48 },
    ThreadSetupInput::AttributesInitialized { returned: TRUE, attr_list: 0xD0 },
    ThreadSetupInput::AttributeUpdated { returned: TRUE },
    ThreadSetupInput::ThreadCreated { handle: 0x44 },
    ThreadSetupInput::HandleClosed { returned: TRUE },
];

fn released(setup: &mut ThreadSetup) -> Vec<Resource> {
    let mut all = vec![];
    while let Some(resource) = setup.release() {
        all.push(resource);
    }
    all
}

#[test]
fn thread_is_created_call_by_call() {
    let mut setup = ThreadSetup::new(0xC0);
    let mut call = |i: usize| create_ums_thread(&mut setup, CALLS[i]);
    assert!(matches!(call(0), ThreadSetupStep::CreateContext));
    assert!(matches!(call(1), ThreadSetupStep::MeasureAttributes { attribute_count: 1 }));
    assert!(matches!(
        call(2),
        ThreadSetupStep::InitializeAttributes { attribute_count: 1, attr_list_size: 48 }
    ));
    match call(3) {
        ThreadSetupStep::UpdateAttribute { attr_list, attribute, value } => {
            assert_eq!((attr_list, attribute), (0xD0, PROC_THREAD_ATTRIBUTE_UMS_THREAD));
            assert_eq!(
                value,
                WorkerAttributes {
                    ums_version: UMS_VERSION,
                    ums_context: 0xA0,
                    ums_completion_list: 0xC0,
                }
            );
        }
        _ => panic!(),
    }
    match call(4) {
        ThreadSetupStep::CreateThread { stack_size, creation_flags, attr_list } => {
            assert_eq!(stack_size, 1 << 20);
            assert_eq!(creation_flags, STACK_SIZE_PARAM_IS_A_RESERVATION);
            assert_eq!(attr_list, 0xD0);
        }
        _ => panic!(),
    }
    assert!(matches!(call(5), ThreadSetupStep::CloseHandle { handle: 0x44 }));
    assert!(matches!(call(6), ThreadSetupStep::Done(Ok(0xA0))));
    assert_eq!(released(&mut setup), vec![Resource::AttributeList(0xD0)]);
}

#[test]
fn failed_creation_gives_back_what_it_took() {
    let failures = [
        (
            1,
            ThreadSetupInput::ContextCreated { returned: FALSE, ums_thread_context: 0xA0 },
            vec![],
        ),
        (
            3,
            ThreadSetupInput::AttributesInitialized { returned: FALSE, attr_list: 0xD0 },
            vec![Resource::ThreadContext(0xA0)],
        ),
        (
            4,
            ThreadSetupInput::AttributeUpdated { returned: FALSE },
            vec![Resource::AttributeList(0xD0), Resource::ThreadContext(0xA0)],
        ),
        (
            5,
            ThreadSetupInput::ThreadCreated { handle: INVALID_HANDLE_VALUE },
            vec![Resource::AttributeList(0xD0), Resource::ThreadContext(0xA0)],
        ),
        (
            6,
            ThreadSetupInput::HandleClosed { returned: FALSE },
            vec![Resource::AttributeList(0xD0), Resource::ThreadContext(0xA0)],
        ),
    ];
    for (calls, failure, held) in failures {
        let mut setup = ThreadSetup::new(0xC0);
        for input in &CALLS[..calls] {
            assert!(!matches!(create_ums_thread(&mut setup, *input), ThreadSetupStep::Done(_)));
        }
        let outcome = create_ums_thread(&mut setup, failure);
        assert!(matches!(outcome, ThreadSetupStep::Done(Err(_))));
        assert_eq!(released(&mut setup), held);
    }
}

#[test]
fn calls_are_taken_in_their_order_alone() {
    let mut setup = ThreadSetup::new(0xC0);
    for i in 0..CALLS.len() {
        for (j, call) in CALLS.iter().enumerate() {
            assert_eq!(setup.can_take(*call), i == j);
        }
        create_ums_thread(&mut setup, CALLS[i]);
    }
    assert!(CALLS.iter().all(|call| !setup.can_take(*call)));
    // After a failure nothing more is taken.
    let mut setup = ThreadSetup::new(0xC0);
    create_ums_thread(&mut setup, CALLS[0]);
    let failed = ThreadSetupInput::ContextCreated { returned: FALSE, ums_thread_context: 0 };
    assert!(setup.can_take(failed));
    create_ums_thread(&mut setup, failed);
    assert!(CALLS.iter().all(|call| !setup.can_take(*call)));
    // The system answers the question for the size by failing, with a size.
    let mut setup = ThreadSetup::new(0xC0);
    create_ums_thread(&mut setup, CALLS[0]);
    create_ums_thread(&mut setup, CALLS[1]);
    let measured = |returned, attr_list_size| ThreadSetupInput::AttributesMeasured {
        returned,
        attr_list_size,
    };
    assert!(setup.can_take(measured(FALSE, 1)));
    assert!(!setup.can_take(measured(TRUE, 1)) && !setup.can_take(measured(FALSE, 0)));
}

#[test]
fn start_takes_its_calls_in_turn() {
    let mut setup = SchedulerSetup::new(0x99);
    let created = |returned, ums_completion_list| SchedulerSetupInput::CompletionListCreated {
        returned,
        ums_completion_list,
    };
    let left = SchedulerSetupInput::SchedulingModeLeft { returned: TRUE };
    assert!(setup.can_take(created(TRUE, 0xC0)) && setup.can_take(created(FALSE, 0)));
    assert!(!setup.can_take(created(TRUE, 0)) && !setup.can_take(created(2, 0xC0)));
    assert!(!setup.can_take(left));
    run_ums_scheduler(&mut setup, created(TRUE, 0xC0));
    assert!(setup.can_take(left) && !setup.can_take(SchedulerSetupInput::Started));
}

#[test]
fn every_other_round_is_measured_with_the_scheduler() {
    let mut measurement = Measurement::new();
    for round in 0..10 {
        let use_ums = round % 2 == 0;
        assert_eq!(measurement.next(), MeasureStep::BeginRound { use_ums });
        for _ in 0..20_000 {
            assert_eq!(measurement.next(), MeasureStep::Visit { use_ums });
        }
        assert_eq!(measurement.next(), MeasureStep::EndRound { use_ums, visits: 20_000 });
    }
    assert_eq!(measurement.next(), MeasureStep::Done);
    assert_eq!(measurement.next(), MeasureStep::Done);
}

#[test]
fn scheduler_is_started_with_its_job() {
    let mut setup = SchedulerSetup::new(0x99);
    assert!(matches!(
        run_ums_scheduler(&mut setup, SchedulerSetupInput::Started),
        SchedulerSetupStep::CreateCompletionList
    ));
    let created =
        SchedulerSetupInput::CompletionListCreated { returned: TRUE, ums_completion_list: 0xC0 };
    match run_ums_scheduler(&mut setup, created) {
        SchedulerSetupStep::EnterSchedulingMode {
            ums_version,
            ums_completion_list,
            scheduler_state,
        } => {
            assert_eq!((ums_version, ums_completion_list), (UMS_VERSION, 0xC0));
            assert_eq!(scheduler_state.queued_jobs.len(), 1);
            assert_eq!(scheduler_state.queued_jobs[0], 0x99);
            assert_eq!(scheduler_state.total_job_count, 1);
            assert_eq!(scheduler_state.ums_completion_list, 0xC0);
        }
        _ => panic!(),
    }
    let left = SchedulerSetupInput::SchedulingModeLeft { returned: TRUE };
    assert!(matches!(run_ums_scheduler(&mut setup, left), SchedulerSetupStep::Done(Ok(()))));
    assert_eq!(setup.release(), Some(Resource::CompletionList(0xC0)));
    assert_eq!(setup.release(), None);
}

#[test]
fn failed_start_is_reported() {
    let mut setup = SchedulerSetup::new(0x99);
    let failed =
        SchedulerSetupInput::CompletionListCreated { returned: FALSE, ums_completion_list: 0 };
    assert!(matches!(run_ums_scheduler(&mut setup, failed), SchedulerSetupStep::Done(Err(_))));
    assert_eq!(setup.release(), None);
    setup.ums_completion_list = Some(0xC0);
    let left = SchedulerSetupInput::SchedulingModeLeft { returned: FALSE };
    assert!(matches!(run_ums_scheduler(&mut setup, left), SchedulerSetupStep::Done(Err(_))));
    assert_eq!(setup.release(), Some(Resource::CompletionList(0xC0)));
}

#[test]
fn walk_enters_one_directory_at_a_time() {
    let mut stack: Stack<&str> = Stack::default();
    assert_eq!(stack.begin(), WalkStep::OpenRoot);
    assert_eq!(stack.root_opened("/"), WalkStep::Advance);
    assert_eq!(stack.advanced(Some("/a")), WalkStep::Entered);
    assert_eq!(stack.begin(), WalkStep::Advance);
    assert_eq!(stack.advanced(None), WalkStep::Advance);
    assert_eq!(stack.advanced(Some("/b")), WalkStep::Entered);
    assert_eq!(*stack.get(), vec!["/", "/b"]);
    assert_eq!(stack.advanced(None), WalkStep::Advance);
    assert_eq!(stack.advanced(None), WalkStep::OpenRoot);
    assert!(stack.get().is_empty());
}

#[test]
fn visit_goes_on_where_something_is_left() {
    let visit = |stack: &mut Stack<&'static str>, left: usize| {
        let mut answers = vec![None; left];
        answers.push(Some("next"));
        let mut answers = answers.into_iter();
        let mut step = stack.begin();
        loop {
            step = match step {
                WalkStep::OpenRoot => stack.root_opened("root"),
                WalkStep::Advance => stack.advanced(answers.next().unwrap()),
                WalkStep::Entered => return,
            };
        }
    };
    for (left, way) in [
        (0, vec!["/", "a", "b", "next"]),
        (1, vec!["/", "a", "next"]),
        (2, vec!["/", "next"]),
        (3, vec!["root", "next"]),
    ] {
        let mut stack = Stack(vec!["/", "a", "b"]);
        visit(&mut stack, left);
        assert_eq!(*stack.get(), way);
    }
    let mut stack = Stack::default();
    visit(&mut stack, 0);
    assert_eq!(*stack.get(), vec!["root", "next"]);
}

#[test]
fn only_real_directories_are_visited() {
    assert!(is_subdir(Some(EntryKind { is_dir: true, is_symlink: false })));
    assert!(!is_subdir(Some(EntryKind { is_dir: true, is_symlink: true })));
    assert!(!is_subdir(Some(EntryKind { is_dir: false, is_symlink: false })));
    assert!(!is_subdir(None));
}
