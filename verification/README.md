# rumbas

Rumbas turns yaml descriptions of exercises into Numbas exams. This crate holds its core logic,
verified with Verus: the input model (templates, `none` values, invalid yaml), overwriting with
defaults, checking of inputs, translations and their placeholders, paths within a repository,
the kinds of files and folders of a repository, default files, dependencies between files,
run commands and the update steps between versions, the yaml edits each update makes, and how
they are made on the text of a file: which texts the yaml parser reads without failing, and the
text written after the edits, as yaml_subset gives it.

- `src/` is the verified library. Calls into the semver, regex, sanitize-filename and
  yaml_subset crates stand behind small trusted wrappers; their contracts state what those crates
  document or what their source shows, and name the results that take more than a few lines to
  state.
- `tests/` runs the library on concrete values.
- `app/` is the command line tool around it: arguments, logging, shell completions, and reading
  and writing files.
