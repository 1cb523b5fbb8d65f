# ums

A library for user-mode scheduling (UMS) on 64-bit Windows: a program runs a
function under a scheduler of its own, and that function can delegate jobs to
worker threads and wait for them without leaving user mode.

The library (`src/`) makes the decisions and is verified with Verus. It holds
no pointer and makes no UMS call: contexts, slots, lists and handles are
addresses. Each longer course of system calls is a step function: it takes
what the last call returned and answers with the next call.

| module       | what it holds                                                     |
|--------------|-------------------------------------------------------------------|
| `platform`   | the types and constants of the Windows interface                  |
| `win_result` | success and failure of a system call                              |
| `event`      | the events that threads and scheduler pass through slots          |
| `cause`      | why the scheduler was entered                                     |
| `entry`      | the scheduler's entry point                                       |
| `scheduler`  | queues, counters and the decision which thread runs next          |
| `job`        | jobs: the first one, and those that a thread delegates            |
| `worker`     | the life of a worker thread                                       |
| `setup`      | the start of a scheduler and the creation of a worker thread      |
| `info`       | what the system keeps about a thread; alignment                   |
| `walk`       | the directory walk of the program                                 |
| `measure`    | the plan of the program's measurement                             |
| `crew`       | laws: the scheduler's books against what its threads do           |
| `order`      | laws: who is served when, and how many threads are kept           |
| `protocol`   | laws: the two ends of each exchange fit                           |
| `run`        | laws: whole runs, from the first entry to the exit                |
| `world`      | laws: the scheduler, its threads and their jobs together          |

The program (`app/`) makes the system calls and measures how fast jobs can be
delegated. It trusts the library's step functions and nothing else to decide.
Its loops go through the trait `System`; `windows.rs` implements it with the
calls themselves and is compiled on 64-bit Windows alone.

One thing is taken on trust in `src/`: that `std::io::Error::last_os_error` can
be called and returns an error. Nothing is claimed of that error.
