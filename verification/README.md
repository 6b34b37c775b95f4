# namaph_multisig

A program that governs a map ("topology"), treasuries and discussion topics
through a multisig of members. The verified library in `src/` holds:

- `model/`: the accounts, the space each is given, and the bytes each takes
  once written;
- `instructions/`: one module per instruction, each a function from the
  accounts it reads (as plain values) and its arguments to the new account
  state and the call it makes into the multisig program;
- `seeds.rs`: the seeds of every account address and of every signature the
  program makes for its members;
- `pda.rs`: the one outside call, the search for a program address;
- `laws.rs`: properties that span instructions and accounts;
- `namaph_multisig.rs`: the instructions under the names clients call.

`app/` is the on-chain glue: account validation and (de)serialisation by
Anchor, and the calls into the multisig program that the library decides on.
