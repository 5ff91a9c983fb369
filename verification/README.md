# z_ai

The logic of a language model provider for the Z.AI service, written and proved
in [Verus](https://github.com/verus-lang/verus).

`src/` is the verified library:

- `model`, `provider`: the models of the service, and how each is offered;
- `chat`, `wire`: the host's side and the service's side of a completion;
- `request`: from the host's request to the service's;
- `completion`, `failure`: credentials, the HTTP request, and what its answer
  means;
- `sse`: the lines of a stream of server-sent events;
- `mapper`: from the service's responses to completion events;
- `estimate`: a rough count of tokens;
- `configuration`: the settings page;
- `text`, `json`: strings, and the little that is read of JSON values;
- `laws`: what holds across functions.

`tests/` runs the library, with `serde_json` linked. `app/` connects the library
to the host: JSON, HTTP, the executor and the widgets.
