# deltachat_message

The messages of an email-based messenger: what a message is, what is shown of it, how it is read
from and written to the database, and what becomes of it when it is seen, read, starred, deleted or
fails. The library decides and is verified with Verus; it does no input or output itself.

- `src/` is the library. Where something has to be asked of the database, a function gives the
  `Statement` to put to it, and another one takes the answer as `ColumnValue`s. What is to be done
  besides (jobs, events) comes back as a list of `Effect`s, in order.
  - `msgid`, `state`, `constants`: identifiers and small enumerations
  - `param`, `stored`: the parameters of a message and the text they are stored as
  - `message`, `load`, `setup`: a message, how it is loaded, and messages that transfer keys
  - `summary`, `lot`, `info`: what is shown of a message
  - `seen`, `receipts`, `store`, `effect`: what becomes of a message
  - `sql`, `column`: statements and the values that answer them
  - `text`, `path`, `suffix`, `chat`, `context`: what the others need
- `app/` puts the statements to SQLite, reads files, and calls the rest of the application through
  the trait `Host`.
- `tests/` runs the library.

Verified code calls outside code in a few places, each behind one function that states what is
believed of it: `text::to_lowercase`, `text::from_utf8`, `text::from_utf8_lossy` and
`setup::dearmor`.

The library takes paths that are written with `/`. On a machine that uses another separator,
`app/native.rs` writes the directory of files and the file of a message in this way before they are
handed over.

Parameters are kept as they were by storing and loading only if their values are of one line and
have no white space at their ends.
