# scx_synse

The verified core of scx-synse-manager, a GTK/libadwaita app that manages
sched_ext schedulers through scx_loader, with a long-lived privileged helper.

- `src/` is the library, checked by Verus:
  - `catalog`: the scheduler catalog (`describe`, `Badge`);
  - `recommend`: the hardware signals and the recommendation;
  - `ipc`, `frame`: the messages and their length-prefixed framing;
  - `protocol`: the helper's decisions for each read and request;
  - `helper_client`: the helper command, the one child reused per session, and its errors;
  - `selection`: the window's selection, button and message logic;
  - `loader`, `system_info`, `text`: scx_loader names, the sysfs root, string helpers.
- `app/` holds the program: the GTK window, D-Bus queries, the helper's async
  loop, rkyv encoding and file I/O. Started as `scx-synse-helper` (or with
  `--helper`) it runs the privileged helper.
- `tests/` exercise the library on concrete values.
