# whspr-app

The decision and formatting logic of whspr's desktop Hub, written in Verus and
proved against its contracts, with a thin ordinary-Rust program around it.

## Layout

- `src/` — the verified library (`whspr_app`):
  - `session`: all screens together, and the one `update` that hands each
    message to its screen, marks the Hub while a link import runs, and opens
    the note desk with a history entry when one finishes.
  - `hub`: the Hub's state, every transition (`update`) and the outside work
    each one asks for (`HubEffect`), plus what the Dictate screen, banners,
    roster and key rows show.
  - `link_import`: the "Add from a link" dialog and the import plan it hands on.
  - `models`: the Models screen (sign-in, downloads, model directories, GGUF
    search).
  - `note_desk`, `note_export`: the note desk and its Typst document.
  - `model_menu`: the speech-recognition and refiner selectors.
  - `progress`: the label of the model download in flight.
  - `devices`, `hotkey`, `secrets`, `platform`, `labels`, `nav`: device picker
    and hotplug notices, hotkey capture, where secrets live, platform
    differences, pick-list labels, navigation vocabulary.
  - `history`, `format`, `text`, `string_map`: history on disk, time and date
    labels, text helpers, a string map with a `Map` view.
- `tests/` — tests run against the compiled library.
- `app/` — the program: logging, the history file, floating-point rounding
  and the download rate, and the loop that performs effects.

Each transition is a function from state and message to next state and
effect; the caller performs the effect (saving the config, starting a
capture, resolving a link, ...) and reports back with another message.
