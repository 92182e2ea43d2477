# rustdeck

The core of a remote control deck: named screens of buttons whose templates
show plugin variables, plugins loaded from dynamic libraries that offer
variables, actions and options, and the configuration file that keeps the
screens.

## Layout

- `src/` is the verified library (Verus).
  - `text`, `keyed`, `strmap`: strings and keyed entries with exact
    specifications.
  - `buttons`, `screen`, `screens`, `config`: buttons, the buttons of a
    screen, the ordered map of screens (an `indexmap::IndexMap`) and the
    configuration with its file form.
  - `datatype`, `error`, `plugin`: value types, errors, what a plugin
    declares and how its declaration, arguments and replies are checked.
  - `models`, `listing`, `store`: what the deck lists of its plugins and the
    store of loaded plugins with their variable values.
  - `render`: filling `{plugin.variable}` references of templates.
  - `icon_store`, `deck`, `loading`, `mock`: icons, the deck itself, the
    choice of plugin files and sample contents.
  - `bundled`: the decisions of the plugins that come with the deck.
- `tests/`: tests of the library on concrete values.
- `app/`: the server program around the library: loading plugin libraries
  through their C interface, plugin call timeouts, the configuration file,
  and the HTTP interface.
