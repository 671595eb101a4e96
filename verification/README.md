# private_publication

The rules and decisions of a Holochain private publication app, verified
with Verus.

- `src/` is the verified library:
  - `hash`: holo hashes as raw bytes, byte equality, and the few holo_hash
    conversions the rules use (DNA hash to text and back, link target to
    action hash).
  - `outcome`: verdicts and failures.
  - `publication_role`, `post`: the validation rules for roles and posts.
  - `membrane`: the membrane proof check: it decodes the proof's record,
    then goes in steps between host calls, with
    the laws that it decides as the whole rule does and admits only the
    progenitor or an agent with a proper proof.
  - `lobby`: read grants and claims, the choice of the claim used to read an
    author's posts, the calls made, and what their answers mean.
- `tests/` runs the library on concrete values.
- `app/` holds the zomes: host calls, serialised entry types and externs,
  which hand plain values to the library and carry out what it decides.
