# scholar_contracts

Verified state machines for a learning platform, written in Verus:

- `course_milestone`: courses with numbered milestones; learners enroll and
  submit evidence, the admin approves (granting LRN), rejects, or completes a
  milestone directly and pays its configured reward; a pause switch.
- `scholar_nft`: soulbound credentials, minted by the admin, revocable with a
  reason, never transferable.
- `scholarship_treasury`: donations tracked per donor and payouts that only
  governance may make, never beyond the pool.
- `learn_token`: the LRN token ledger.
- `table`: the insertion-ordered key/value table the contracts store records in.

Each contract has a mathematical model (`...Model`) whose transition functions
give the exact result of every call; the executable methods are proved to
follow them, and the `law_*` proof functions state what holds across calls.

`app/` binds the library to Soroban: entry points, host authentication,
storage, events and token calls.
