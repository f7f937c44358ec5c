# judger_client

The client of a judging service: it registers at a coordinator, takes on jobs,
fetches test suites and repositories, has tests run on them and reports what came
of it.

* `src/` is the decision logic, verified with Verus. It touches neither the network
  nor the disk.
  * `text`: small helpers on strings and integers
  * `config`, `judge`: the configuration files that jobs bring along
  * `client::error`, `client::model`: errors and messages
  * `client::register`, `client::connect`, `client::status`: what to send, and what
    to make of the answer
  * `client::serve`: listening to the coordinator
  * `client::handles`, `client::cancel`: the jobs that are under way, and cancelling one
  * `client::suite`, `client::suite_laws`: fetching a test suite
  * `client::job`, `client::job_laws`: carrying out a job
  * `client::forward`: passing results and output on while a job runs
  * `client::report`: what is done around a job
  * `client::plan`: plans that are carried out up to the first failure
* `app/` performs what the logic decides.
* `tests/` runs the logic on concrete values.

A longer task is a machine: it names one action at a time, and `next` takes in how
that action went. `after` states what follows, and the laws state what a whole run
does, whatever the outside world does meanwhile.
