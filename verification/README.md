# onepassword-sdk-unofficial

> **Unofficial.** This project is not affiliated with, sponsored by, or endorsed by 1Password.

An SDK for 1Password desktop-app integrations: a persistent client that is authorized by the desktop
app, resolves secret references in batches, and manages items and vaults.

The library under `src/` is written in Verus. It decides everything and talks to nobody: it checks
what callers hand in, writes the messages, reads the replies, and says what comes next. The crate
under `app/` does the talking. It opens the IPC library of the desktop app, sends the bytes that it
is given, and hands the replies back.

## Modules

- `client`: authentication, the builder, the client, and invocations. An invocation whose session
  has expired is followed by one new initialization and one retry.
- `secrets`, `items`, `vaults`: the operations of a client.
- `operation`: an invocation together with what its answer is read as.
- `transport`: the messages to the desktop app and the replies from it.
- `loader`, `platform`: finding and loading the IPC library, step by step.
- `validate`: the bounds on inputs.
- `error`: the errors, none of which shows what the desktop app said.
- `json`, `encoding`, `text`: JSON values, base64 and strings. The calls into `serde_json` and
  `base64`, and those into the standard library that Verus has no specification of, stand here, each
  behind a function whose contract is trusted.
- `laws`: what holds of the library as a whole.

## Limits

- Secret references: 100 entries, 4 KiB each, 128 KiB in total per batch.
- Items: 1 MiB each, 100 items and 8 MiB per batch.
- Platforms: macOS and Linux.

## Use

```rust,ignore
let auth = DesktopAuth::new("my.1password.com")?;
let mut client = Client::builder(auth)
    .integration_name("my-rust-app")
    .integration_version("0.1.0")
    .build()?;
let password = client.secrets().resolve("op://Personal/example/password")?;
```
