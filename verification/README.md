# lighter_sdk

A client library for the Lighter exchange whose rules are proved with Verus.

`src/` is the verified library. Its functions carry `requires`/`ensures`
contracts over mathematical models (sequences, maps, exact decimal keys), and
public proof functions state the properties that hold across calls:

- `types`: transaction requests and payloads, their validation rules, and the
  optional L2 transaction attributes with their wire form.
- `nonce`: the optimistic and API nonce strategies (key rotation, local
  counting, giving back the nonce of a failed transaction).
- `client`: what a signer client decides around a submission: key and nonce
  choice, private-key normalisation, the nonce action after an answer, and
  batch payloads.
- `ws`: channel names, subscriptions, the order-book and account stores fed by
  websocket updates, what each message does to them, and which market
  statistics a message carries.
- `decimal`, `numeric`, `text`: numerals (every text a float parser reads,
  compared exactly), integers and strings.
- `rest`, `config`, `ffi`, `error`, `models`: error answers, connection
  settings, the values exchanged with the signer library, and data types.

Outside crates are reached through a few trusted wrappers (`serde_json` for
reading error bodies and writing batch payloads), whose contracts are stated
in their doc comments.

`app/` is the I/O layer around the library: the async REST and websocket
clients, the signer shared library calls, the async nonce managers, JSON
forms of the data types, and the payloads that carry floating-point numbers.

`tests/` exercises the library on concrete values.
