# scribe_registry

A registry of SRCs (content records keyed by a KURI byte string), of services, and of
the scribes that may register and manage them, with its behaviour proved in Verus.

- `src/types.rs`: origins, errors, the stored records, events, calls and the length limits.
- `src/table.rs`: a keyed storage table (distinct keys, viewed as a `Map`).
- `src/checks.rs`: the origin checks and the length bound check that open every call.
- `src/model.rs`: the registry's state as mathematical values and, for every call, the
  error that refuses it or the state it leaves (`step`).
- `src/pallet.rs`: the registry itself; each call is proved to do exactly what `step` says.
- `src/laws.rs`: properties of every call: consistency of storage, nothing changes on a
  refusal, one event per accepted call, counters, who may change what.
- `app/lib.rs`: conversions between FRAME origins/errors and the registry's own.
