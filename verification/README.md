# subconverter

The verified core of a proxy-subscription converter, written in Verus: each
function states its behaviour as a contract over a mathematical model of
text, and Verus proves the code against it. The library gives the pieces of
each client's configuration (Clash, Surge, Surfboard, Quantumult,
Quantumult X, Loon, Mellow, sing-box, SIP008, SSD and single share links):
the line or entry of each node, the line of each proxy group with the
members its rules choose, the rules of its rulesets, and the decisions of a
conversion request (its settings from the query, the program's settings
and an external configuration; merged nodes, headers, upload name).
Node preparation is here too: renaming by regex rules, emoji by rule, and
filtering by remark. The configurations of the INI-based clients (Surge,
Surfboard, Loon, Quantumult, Quantumult X, Mellow) are filled in from their
base templates by `src/utils/ini.rs` and the `*_config` functions; `app/`
holds the YAML and JSON output (Clash rules and groups, sing-box rules,
SIP008 and SSD).

## Layout

- `src/text.rs` — the character-level model of text (prefixes, splitting,
  trimming, replacement, decimal numbers) and the executable helpers proved
  against it.
- `src/utils/` — base64 and percent-encoding over UTF-8 bytes, URL query
  arguments, IPv4 addresses, INI texts, and the regular expressions of the
  `regex` crate behind trusted wrappers.
- `src/models/` — proxies, proxy groups, rulesets and conversion targets,
  with their builders.
- `src/generator/config/` — node preparation (`nodes.rs`: renaming, emoji,
  remark filters) and group members (`group.rs`); in `formats/` the lines
  each client gets for a node and for a proxy group, the whole INI
  configurations, single links, SIP008 and SSD servers.
- `src/generator/ruleconvert/` — ruleset dialects, their conversion, and the
  rules of Surge-like and sing-box configurations.
- `src/generator/yaml/` — the Clash forms of proxies and groups.
- `src/api/` and `src/interfaces/` — query handling, rule updates and the
  rule bases of a conversion.
- `app/` — what needs I/O or serde: JSON and YAML output, address parsing
  with `std::net`, and the serde forms of the library's types.
- `tests/` — tests on concrete values, run against the compiled library.

Laws of the library (what holds across calls or for all inputs) are public
proof functions named `law_*` beside the functions they speak of.
