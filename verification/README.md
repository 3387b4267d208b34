# tuisky

A terminal client for Bluesky: several columns side by side, each signed in
with its own session, showing pinned feeds, posts and a form for new posts.

## Layout

- `src/` is the library, verified with Verus. It holds what the client
  decides: key bindings and their text form, the configuration file's rules,
  the merging and filtering of feed items, the actions a post offers, the
  rows and lines each view shows, the view stack of a column, the focus of
  the forms and modals, the checks made before a post is sent, and the main
  loop's dispatch. Calls into the AT Protocol library, the text-wrapping
  library, the image library, the JSON library and the insertion-ordered
  collections stand behind small wrappers whose contracts say what the
  library relies on.
- `app/` is the program around it: terminal set-up and drawing, reading the
  configuration file, the network requests and the saved sessions. It hands
  the library plain values and draws what the library returns.
- `tests/` runs the library on concrete values.
