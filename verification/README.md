# staze

A terminal time tracker: start a session, label it, stop it, and look back
over the week, month or year.

- `src/` is the verified library: the keys (`key`), the home menu (`home`),
  the running session (`session`), the history screen (`history`), the tag
  manager (`tags`), the text they show (`text`), the clocks (`clock`) and the
  application's decisions between screens (`tracker`). Each screen is a state
  machine whose transitions are stated as spec functions over plain views.
- `app/` is the terminal program around it: crossterm for keys, ratatui for
  drawing, rusqlite for the session store.
- `tests/` runs the library on concrete inputs.
