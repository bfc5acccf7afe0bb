# fm_xml_explode

Explodes FileMaker "Save a Copy as XML" exports into one file per catalog item and turns
scripts and custom functions into readable text.

- `src/` is the verified library. `xml` turns the export into a list of events (the
  tokenizing is done by `quick_xml`); the catalog modules read those events and say, with
  contracts proved by Verus, which items, folders and skeleton lines come out;
  `script_steps` and `script_sanitizer` turn script steps into lines of text.
- `app/` is the command line program: it finds the exports, reads them, calls the library
  and writes the files.
- `tests/` holds the tests of the library.
