# tracing-attributes-http

The logic behind the `server_send` attribute, which instruments an HTTP
server function for `tracing`: the attribute's arguments are checked
(`level = ..`, `name = ..`, `skip = [..]`), the function's
`#[trace_field(x = 0)]` attributes become span fields, and the function is
written back under a `tracing::instrument` attribute that also carries the
standard OpenTelemetry and HTTP fields.

The library works on the token text of the attribute's arguments and of the
item, and is verified with Verus. How `syn` reads a text, and how a token
stream is printed, depend on where the code runs, so the readings promise
nothing: every check and every rewrite is a verified function of what was
read (`check_arguments`, `accept_function`, `analyze`, `lower`, `codegen`,
`expand`), and the functions that read text state that their answer is that
of those functions on some reading.

- `src/syntax.rs`: the model of the syntax that is read (attributes, function
  items, expression shapes) and the calls into `syn` and `proc_macro2`;
- `src/server_send/`: argument checking (`parse`, `parsed`), extraction of the
  fields and settings (`analyze`), `lower` and `codegen`;
- `src/lib.rs`: the whole expansion, `expand` on what was read and
  `server_send` on text;
- `src/analyze.rs`, `src/lower.rs`, `src/codegen.rs`: the assertion form, where
  each `trace_field` holds a condition that is asserted at the start of the
  body;
- `src/trace_field.rs`, `src/text.rs`, `src/diagnostic.rs`: shared pieces.

`app/lib.rs` turns token streams into text and back, and reports refusals
through `proc_macro_error`.
