# finova

The rules of the Finova social-mining network and of its cross-chain token bridge, as a
library whose behaviour is stated in `requires` / `ensures` contracts and proved with Verus.

## Layout

- `src/` — the verified library.
  - Core network: `xp` (experience points, streaks, levels), `referral` (codes, referral
    points, tiers, claims), `governance` and `governance_events` (proposals, weighted votes,
    finalization, execution, metrics), `anti_bot` (human-probability scores, reports,
    behaviour analysis), `rewards` (reward bookkeeping, activity checks, claims, special-card
    boosts), `quality` (assessment gates and risk records), `core_utils` (shared checks, day
    arithmetic, multipliers, decay), `events` (event categories and XP tables),
    `core_helpers` / `core_constants` / `core_state` / `errors`.
  - Bridge: `merkle` and `cryptography` (Merkle trees and proofs, signature tallies),
    `signature_verification`, `validator_set`, `locked_tokens`, `lock_tokens`,
    `unlock_tokens`, `bridge_instructions`, `bridge_utils`, `bridge_constants`, `security`.
  - `hashing` and `text` hold the calls into `solana-program`, `hex` and `std` whose contracts
    are trusted.
- `tests/` — tests of the library against concrete values.
- `app/` — the floating-point formulas (reward factors, regression, vote weights, quality
  scores) and the client-side helpers; they hand their results to the library.
