# git_rsl

A reference state log (RSL) for git: `git secure-push`, `git secure-fetch`
and `git rsl-init` keep, on a branch named `RSL`, a signed log of push
entries that chain to one another by hash, together with a bag of nonces
with which each developer marks that they have seen the newest log. A
fetch or push refuses a remote whose log does not extend the one it last
trusted.

Layout:

- `src/` is the library, verified with Verus: nonces and nonce bags (their
  JSON and file forms), push entries (their JSON text and hash), the RSL
  state and its validation, and the decisions of secure fetch and push:
  the retries of secure fetch and push, refusing an invalid remote RSL, which
  credentials to offer, and how to set up the RSL.
- `app/` holds the commands: git and GnuPG operations, files, and the
  loops that carry out what the library decides.
- `tests/` exercises the library.
