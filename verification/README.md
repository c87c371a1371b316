# twitch_dashboard

A terminal dashboard for Twitch chat traffic stored in ScyllaDB, with its decisions
verified by Verus.

- `src/` is the verified library: command-line values (`args`), text formatting
  (`text`), table rows and their construction from chat messages (`models`), joins and
  leaves (`transit`), the database work that each chat event calls for (`workload`),
  synthetic traffic for stress runs (`stressor`), the state machine and pane contents
  of the terminal UI (`ui`) and the format of the stress runs' list files (`payload`).
- `app/` is the program around it: clap, the ScyllaDB session and charybdis models,
  the Twitch IRC client, the metrics endpoint, the stress workers and the ratatui
  terminal. Stress runs read their streamers, chatters and message texts from
  `payload/streamers.txt`, `payload/users.txt` and `payload/messages.txt` (one entry per line); a missing file is read as an empty
  list, so nothing is registered at start and stress workers panic on an empty list.
- `tests/` exercises the library on concrete values.
