# receipts

A point-of-sale receipts program: sales made of line items, a form that
edits a sale, and a window that lists, shows and edits sales and saves a
receipt as a PDF.

- `src/` is the library, verified with Verus: decimal writing and reading
  of quantities (`decimal`), sales and how each message of the sale screens
  changes a sale (`sale`, `sale::show`, `sale::edit`), what a message asks of
  the program (`action`), and the screens and saved sales of the program as
  a state machine with its window title (`program`). The laws of the state
  machine (saving stores the draft, cancelling discards edits, new sales get
  fresh ids, the state stays coherent) are proof functions in `program`.
- `app/` is the window (iced), the PDF output (printpdf), the file dialog,
  and the money amounts, which are `f32` arithmetic on the bit patterns that
  the library holds.
- The save dialog uses `rfd`, which is not among the dependencies of
  this build: with it the dependency set grows past the number of
  packages the build allows. `app/` names it as the program does.
- `tests/` runs the library on concrete values.
