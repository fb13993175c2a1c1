# sysmon

A system monitor that records process, thread, image-load and registry events
in a bounded queue and hands them to a reader as fixed-size records.

- `src/` is the verified library: the event types (`item`), the record format
  (`wire`), the queue (`queue`), the event built from each kernel notification
  (`notify`, `registry`), the answers to device requests (`dispatch`) and the
  load/unload sequence (`setup`). Status codes live in `status`.
- `tests/` exercises the library on concrete values.
- `app/` is the reader program and the kernel glue that performs the calls the
  library's decisions ask for.
