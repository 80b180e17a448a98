# ryot_misc

The decisions behind the miscellaneous requests of a self-hosted media tracker: reviews,
collections, seen history, summaries, import reports, accounts, sessions, custom media and
exports. The decisions are verified with Verus.

## How it works

The library never touches a database or a network. Every request begins with a method of
`MiscService` (or of `MiscQuery` and `MiscMutation`, which also turn away senders who are not
known). The method returns a value that names the one piece of outside work that is needed
next: its fields are what that work is done with. Once the work is done, a method of the value
takes the reply and returns the next `Step`: more work, or the outcome.

```text
service.delete_seen_item(seen_id, user_id)   waits for the entry with this id
    .found(entry)                            -> Step::Do(RemoveSeenItem) or an error
    .removed(reply)                          -> Step::Do(LeaveInProgress) or the outcome
    .left(reply)                             -> the outcome
```

Public proof functions whose names begin with `law_` state what holds of the library as a
whole, over the same spec functions that the contracts use.

## Layout

- `src/` is the verified library.
  - `step`: how an operation goes on, and lines of work.
  - `service`, `graphql`, `config`: where requests begin.
  - `reviews`, `collections`, `history`, `custom_media`, `metadata`, `imports`, `export`,
    `summaries`, `users`, `sessions`: one module for each group of operations.
  - `summary`, `totals`: what a user has consumed, in figures.
  - `media`, `store`, `error`: the data.
  - `clock`, `decimal`, `password`, `session_cookie`, `unique_id`: time, numbers as text,
    password hashes, the session cookie and random identifiers. What these take from other
    crates is stated in the doc comments of a few trusted functions.
- `app/` does the outside work with SeaORM and offers everything over GraphQL.
- `tests/` runs the library.
