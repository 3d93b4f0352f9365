# common_meta

The DDL manager of a distributed table store. It turns a request to create,
drop, alter or truncate a table into one procedure, submits it and waits for it.

`src/` holds the decisions, verified with Verus. They are written as steps: a
step names a call to one of the manager's collaborators and holds what is to be
done with the reply; `resume` takes the reply to the next step.

* `ddl_manager`: making a manager and registering its loaders, and submitting a
  procedure;
* `loader`: restoring stored procedures;
* `handler`: executing a task;
* `run` and `laws`: what a whole execution comes to and what holds of every one,
  whatever the collaborators reply.

`app/` performs the calls: it drives the steps with async services, draws the
procedure ids and traces the requests.
