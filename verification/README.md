# location_manager

The decisions of a library's location manager, with their proofs:

- `manager`: the bookkeeping of which locations have a watching or an idle
  file system watcher and which are marked for removal, with one handler per
  event of the manager's task (location added, removal requested, periodic
  check, online status found); each returns the watcher actions to carry out.
- `location`: location and watcher records; how a watcher takes in a newer
  location record.
- `online`: whether a location is online, and which flag to store.
- `events`: which file system events are handled, and what a creation,
  rename or removal does to the index.
- `paths`: materialized paths, over `std::path` calls whose results are named.
- `laws`: properties that span several handlers.

`app/` holds the task itself: channels, timers, `notify` watchers and the
calls into the library database, which carry out what the library decides.
