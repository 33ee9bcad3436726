# carbon_marketplace

A carbon credit marketplace with escrow, verified with Verus.

Credits are issued by their creators, verified by an admin, listed at a price
per ton and bought in fractions. A purchase locks its price in escrow; the
buyer's confirmation pays the seller and turns the bought tons into a new
credit of the buyer's, while a cancellation after the lock period, or the
admin's settlement of a dispute, either refunds the buyer or pays the seller.

- `src/types.rs`: records, identities, events, transfers and errors.
- `src/model.rs`: the mathematical state, its well-formedness, its books
  (carbon and escrow) and one spec function per call saying what it does.
- `src/laws.rs`: the laws, proved of every call and of every history of calls.
- `src/market.rs`: the executable contract, each call proved to do what its
  spec function says.
- `app/lib.rs`: the Soroban contract that authenticates callers, keeps the
  state in ledger storage, makes the ordered token transfers and publishes
  the events.
