# tomoon

The back-end of a Steam Deck plugin that runs the Clash proxy, as a verified library
(`src/`, checked by Verus) and the program around it (`app/`).

- `src/settings.rs` – saved settings, subscriptions, default values and file locations.
- `src/control.rs` – the runtime state (settings, Clash's location, progress of work), the
  saving loop step, the start-up check, errors and the plan for launching Clash.
- `src/api.rs` – what each RPC call does to the runtime; calls that wait on Clash or the
  network are split into the step before and the step after that work.
- `src/web.rs` – the HTTP endpoints' forms, answers and effects, and how downloaded
  subscriptions are named, stored and answered.
- `src/yaml.rs` – YAML values and the rewrite of a profile into the configuration Clash is
  started with, with the laws that say which keys it sets, that every other key keeps its
  value, and that no mapping ends up holding a key twice.
- `src/helper.rs`, `src/text.rs`, `src/paths.rs` – `file://` links, process detection,
  random names, URL encoding, string splitting and path joining.
- `src/clashdeck.rs` – the smaller back-end: an on/off switch for Clash with saved settings.
- `app/` – logging, files, processes, the RPC and HTTP servers, and JSON/YAML (de)serialisation.
