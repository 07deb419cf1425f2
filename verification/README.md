# Settlement

A settlement contract for merchant payments, written and verified in Verus.

An admin registers merchants and gives them settlement rules: a platform fee and
a network fee in basis points, a delay in ledgers, and whether settlement is
automatic. A merchant without a rule of its own falls back on a global default,
and before that is set on a built-in rule of 1 %. A registered merchant stores
payments under 32-byte references; each is split into the two fees, rounded up,
and the merchant's remainder, and the record is final. The contract can be
paused, its code can be replaced, the admin role can be handed over, and a
recovery address can replace a lost admin after seven days.

The library does no I/O. A call runs against an `Env`, which holds what the host
handed over (entries with their lifetimes, the ledger, who authorised the call,
what governance contracts answered), and leaves in its journal what the host has
to do. A refused call leaves no trace.

| Module      | What it holds                                                    |
|-------------|------------------------------------------------------------------|
| `types`     | Rules, records, errors, limits                                   |
| `address`   | Addresses, and which of them name somebody                       |
| `fees`      | The fee split                                                    |
| `table`     | The keyed tables that entries are kept in                        |
| `effects`   | Keys, entries, events, and what the host can be told to do       |
| `env`       | The environment of a call                                        |
| `model`     | For each call, when it is refused and what it does               |
| `contract`  | The calls themselves, proved against the model                   |
| `contents`  | What calls do to the stored values, lifetimes aside              |
| `history`   | Journals, published events, lifetimes, and whole lives           |
| `laws`      | What holds of the contract as a whole                            |

`app/` is the contract as a Soroban host sees it: entry points, storage types,
and the code that hands entries over and carries journals out.
