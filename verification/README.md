# stake

The logic of Stake, a small desktop front end that turns a website into a desktop
app with `pake`, written in Verus.

- `src/` is the verified library: trimming of the form's fields, validation of a
  request (`pake.rs`), the arguments `pake` is started with and the messages shown
  afterwards, the form's state (`form.rs`), the decoding of the hero picture into
  texture pixels (`texture.rs`), and the colours, fades and font plan of the window
  (`style.rs`).
- `app/` is the egui window around it: drawing, reading files, finding and starting
  the `pake` program.
- `tests/` runs the library on concrete inputs.
