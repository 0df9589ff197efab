# npf_calc

An exposure-time navigator for astrophotography (the NPF rule), split in two:

- `src/` — a library verified with Verus: the catalogue of constellations,
  Messier and other deep-sky targets (declinations held in hundredths of a
  degree), Fluent translations with a fallback to English, the latitude,
  season and search filters, stably sorted target menus, the sensor and lens
  lists with their selection, and the integer geometry of the chart image.
- `app/` — the egui desktop program around it: settings persistence, the
  floating-point NPF formula and chart drawing with plotters, and the user
  interface. It reads its translation catalogues from `i18n/fr.ftl` and
  `i18n/en.ftl` at start-up.
- `tests/` — tests of the library on concrete values.
