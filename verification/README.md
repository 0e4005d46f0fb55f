# durabletask

A durable task SDK whose replay logic is verified with Verus.

- `src/` is the verified library: the executor's replay of an orchestration
  history (`executor`), the orchestration's own context that numbers and
  sends its actions (`types`), the task state (`task`), the named registry
  of functions (`registry`), the worker's and client's requests and answers
  (`worker`, `client`), and the laws that hold across replay steps (`laws`).
- `app/` is the asynchronous runtime around it: the futures that run
  orchestrators and activities, JSON payloads, and the gRPC worker and
  client of the task hub.
- `tests/` runs the library on concrete histories.
