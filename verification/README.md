# sysmon

A lightweight system monitor (GPU, CPU, RAM, VRAM, GPU temperature) whose core
is verified with Verus.

- `src/` is the verified library:
  - `metrics` – a sample, the componentwise maximum, the VRAM share and the
    CPU usage meter;
  - `session` – the state a monitoring session keeps (maximum, GPU warning,
    the 300-sample history for the graph, logging count, update schedule);
  - `display` – display modes, the graph layout (`graph`) and the text of the
    screens as coloured segments (`panel`);
  - `text` – decimal numbers, right-aligned;
  - `logging` – the CSV log format and its read-back guarantee;
  - `menu` – the start-up choices and priority names;
  - `gpu` – back-end selection, NVML (`nvidia`) and ADLX (`amd`).
- `app/` is the program: Windows API readings, the terminal, the log file and
  the sampling loop.
- `tests/` exercises the library on concrete values.
