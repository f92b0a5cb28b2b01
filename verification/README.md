# talos

TALOS is the control plane of an edge inference node: it decides which
camera-frame tasks run on the GPU, holds the single GPU lease, queues what
must wait and logs every decision.

- `src/` is the library, written in Verus. Admission, the scheduler states,
  the VLM gate, the lease, the deferred queue, the dispatch step, workload
  generation, log line layout, telemetry field extraction, deployment plans
  and run statistics carry contracts that Verus proves.
- `app/` holds the programs (`talos edge-node`, `bench`, `hitl`,
  `real-model`, `jetson-harden`): argument handling, files and processes,
  the tokio loops, the C++ runtime behind the `cxx` bridge, and the
  floating-point readings, whose comparisons with their thresholds are handed
  to the library as booleans.
- `tests/` exercises the library on concrete values.
