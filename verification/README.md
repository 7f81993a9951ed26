# fmod_oxide

A verified core for safe bindings to the FMOD sound engine.

`src/` is verified with Verus:

- `cstr`, `cstring`, `bytes`: borrowed and owned UTF-8 C strings (one nul
  byte, at the end, and valid UTF-8 before it), the checks that make them,
  and the facts about nul bytes and UTF-8 those checks rest on.
- `studio_enums`, `core_enums`: the value kinds of FMOD and FMOD Studio with
  their raw values.
- `flags`: debug-logging and memory-kind bit flags.
- `callbacks`: what the installed Studio callbacks decide: which user
  callback to call and when userdata is freed.
- `string_query`: what the bindings do with each answer of FMOD's string
  queries.
- `coverage`, `index_collections`, `patterns`: the report logic of the
  binding-coverage tool, over `indexmap` collections and `regex` patterns.

`app/` holds the coverage tool's command line, header parsing and file
output, the conversions to and from `std::ffi` C strings and raw pointers,
and the FMOD calls that fetch strings around the library's decisions. `tests/` runs the library on concrete values.
