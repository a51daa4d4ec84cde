# vault

A token vault for one owner and one mint, with its rules proved in Verus.

The owner deposits and withdraws. Anybody else may pay interest into the vault: one
percent of the principal, at most once in 24 hours. The principal is what was deposited
and not withdrawn, so interest does not earn interest. A vault that holds no tokens can be
closed.

* `src/` is the library. It checks the accounts of each instruction, decides, and returns
  what is to be done as plain values: a transfer, the closing of an account, the new books
  of the vault. `src/history.rs` proves what holds of every sequence of instructions.
* `app/` is the Anchor program around it: it loads accounts, reads the clock, calls the
  token program and stores the books.
* `tests/` runs the library on concrete values.

Two functions of `anchor_lang` are trusted, both in `src/pda.rs`: the derivation of a
program address from seeds, and the search for the bump with which one derives.
