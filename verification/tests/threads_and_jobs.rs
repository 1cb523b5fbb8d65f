use ums::cause::ThreadBlockedCause;
use ums::event::{ThreadEvent, ThreadState};
use ums::job::{BlockingJob, JobState, RunInput, RunStep, TopLevelJob};
use ums::platform::WAIT_IO_COMPLETION;
use ums::scheduler::{Execution, SchedulerState};
use ums::worker::{can_take, thread_main, ThreadInput, ThreadStep};

fn state() -> SchedulerState {
    SchedulerState::new(1, std::collections::VecDeque::new())
}

#[test]
fn event_slot_holds_the_last_event() {
    assert_eq!(ThreadEvent::default(), ThreadEvent::NoEvent);
    let mut slot = ThreadState::new();
    assert_eq!(slot.get_event(), ThreadEvent::NoEvent);
    slot.set_event(ThreadEvent::ThreadAssignedJob(8));
    assert_eq!(slot.get_event(), ThreadEvent::ThreadAssignedJob(8));
    assert_eq!(slot.yield_event(ThreadEvent::ThreadCompleteJob(8)), ThreadStep::Yield);
    assert_eq!(slot.get_event(), ThreadEvent::ThreadCompleteJob(8));
}

#[test]
fn worker_runs_its_jobs_and_ends() {
    let mut slot = ThreadState::new();
    assert_eq!(thread_main(&mut slot, ThreadInput::Started), ThreadStep::Yield);
    assert_eq!(slot.get_event(), ThreadEvent::ThreadStartup);
    for job in [0x10, 0x20] {
        slot.set_event(ThreadEvent::ThreadAssignedJob(job));
        assert_eq!(thread_main(&mut slot, ThreadInput::Resumed), ThreadStep::RunJob(job));
        assert_eq!(thread_main(&mut slot, ThreadInput::JobReturned(job)), ThreadStep::Yield);
        assert_eq!(slot.get_event(), ThreadEvent::ThreadCompleteJob(job));
    }
    slot.set_event(ThreadEvent::ThreadShutdown);
    assert_eq!(thread_main(&mut slot, ThreadInput::Resumed), ThreadStep::QueryIoPending);
    assert_eq!(thread_main(&mut slot, ThreadInput::IoPending(true)), ThreadStep::Sleep(10_000));
    assert_eq!(
        thread_main(&mut slot, ThreadInput::Slept(WAIT_IO_COMPLETION)),
        ThreadStep::QueryIoPending
    );
    assert_eq!(thread_main(&mut slot, ThreadInput::IoPending(false)), ThreadStep::Return(0));
    assert_eq!(thread_main(&mut slot, ThreadInput::Slept(0)), ThreadStep::Return(0));
}

#[test]
fn worker_is_told_nothing_out_of_turn() {
    let mut slot = ThreadState::new();
    let all = [
        ThreadInput::Started,
        ThreadInput::Resumed,
        ThreadInput::JobReturned(8),
        ThreadInput::JobReturned(9),
        ThreadInput::IoPending(true),
        ThreadInput::IoPending(false),
        ThreadInput::Slept(0),
        ThreadInput::Slept(WAIT_IO_COMPLETION),
        ThreadInput::Slept(1),
    ];
    let taken = |slot: &ThreadState| all.map(|input| can_take(slot, input));
    assert_eq!(taken(&slot), [true, false, false, false, false, false, false, false, false]);
    slot.set_event(ThreadEvent::ThreadStartup);
    assert_eq!(taken(&slot), [false; 9]);
    slot.set_event(ThreadEvent::ThreadAssignedJob(8));
    assert_eq!(taken(&slot), [false, true, true, false, false, false, false, false, false]);
    slot.set_event(ThreadEvent::ThreadShutdown);
    assert_eq!(taken(&slot), [false, true, false, false, true, true, true, true, false]);
}

#[test]
fn top_level_job_runs_once() {
    let mut job = TopLevelJob::new(|| "done");
    assert!(matches!(job.state, JobState::Function(_)));
    assert_eq!(job.on_schedule(&mut state(), 4), None);
    job.main(&mut ThreadState::new());
    assert!(matches!(job.state, JobState::Result("done")));
    assert_eq!(job.on_blocking(&mut state(), ThreadBlockedCause::Trap), None);
    assert_eq!(job.on_complete(&mut state()), None);
    assert!(matches!(job.state, JobState::Result("done")));
}

#[test]
fn blocking_job_counts_stops_and_hands_its_result_over() {
    let input = vec![1, 2, 3];
    let mut job = BlockingJob::new(move || input.iter().sum::<i32>(), 0xA0, 0xA8);
    assert_eq!((job.invoker, job.event_slot), (0xA0, 0xA8));
    assert_eq!(job.event, ThreadEvent::NoEvent);
    assert!(job.state.is_function());
    assert!(!job.can_run(RunInput::Resumed));
    assert!(matches!(
        job.run(RunInput::Started { job: 0x50 }),
        RunStep::Yield { event_slot: 0xA8 }
    ));
    assert_eq!(job.event, ThreadEvent::ScheduleJob(0x50));
    assert_eq!(job.on_schedule(&mut state(), 0xA0), None);
    assert_eq!(job.on_blocking(&mut state(), ThreadBlockedCause::Trap), None);
    assert_eq!(job.on_blocking(&mut state(), ThreadBlockedCause::SysCall), None);
    assert_eq!(job.on_blocking(&mut state(), ThreadBlockedCause::SysCall), None);
    assert_eq!((job.traps, job.sys_calls), (1, 2));
    job.main(&mut ThreadState::new());
    let next = job.on_complete(&mut state());
    assert_eq!(next, Some(Execution::new(0xA0, 0xA8, ThreadEvent::CompleteJob)));
    assert!(job.state.is_result() && job.can_run(RunInput::Resumed));
    assert!(matches!(job.run(RunInput::Resumed), RunStep::Return(6)));
    assert!(matches!(job.state, JobState::Empty));
    job.traps = usize::MAX;
    assert!(!job.can_count(ThreadBlockedCause::Trap));
    assert!(job.can_count(ThreadBlockedCause::SysCall));
}
