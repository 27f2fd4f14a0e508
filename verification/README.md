# citum_schema_data

Data input models for Citum citations and bibliographic references, with the
logic that reads and normalises them verified by Verus.

Layout:

- `src/` — the verified library.
  - `citation`: citations, citation items and locators; locator label keys,
    compound locators, and normalisation of free-text locators.
  - `classes`: the reference class vocabulary and its wire names.
  - `reference`: dispatch of a flat `class`-tagged reference mapping, and
    genre/medium normalisation.
  - `identifier`: validated supplementary identifier names and the sorted
    identifier map.
  - `date`: EDTF date values with an opaque note.
  - `types`: numbers-or-strings, multilingual strings, titles, subtype
    vocabularies, bibliography metadata and the abbreviation map.
  - `conversion`: rules that turn legacy CSL-JSON values into Citum values
    (dates, year substitutes, titles, type routing, contributor identities,
    the CSL type table).
  - `contributor`: contributors (names, structured names, lists), their
    roles, and the rules that fold legacy name lists into role-tagged
    entries (merging a name already present, splitting a list around it).
  - `relation`: links between works (original, event, collection, parent).
  - `legacy`: the legacy CSL-JSON record as plain values, and its conversion
    into a typed reference of each class (monographs, components of
    collections and serials, events, audio-visual works, datasets, software,
    legal and specialised classes).
  - `fields`: reading fields off a converted reference whatever its class
    (identifier, type, title, authors, editors, translators, publisher,
    dates, numbers, ...).
  - `bibliography`: an input bibliography (metadata, converted references,
    ordered compound sets).
  - `accessors`: the CSL item type each kind of reference renders as.
  - `text`: character and string primitives with exact specifications.
- `app/` — serde wire forms that convert to and from the library types, and
  the reading of CSL-JSON items into the library's legacy record.
- `tests/` — behaviour tests of the library.
