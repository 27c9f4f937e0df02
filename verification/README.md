# prosettings_tui

A terminal browser for the settings of professional Counter-Strike players, with
its logic written and proved in Verus.

- `src/` is the verified library: the tab cycle and the settings data (`models`),
  the command line and a query's printed lines (`cli`), the crosshair share code
  (`crosshair`), reading the scraped pages and the scraper's failures (`scraper`),
  the browser's search protocol, key handling and drawn texts (`ui`), the theme
  filter (`theme`), and the character-level helpers they are stated over (`text`).
- `app/` is the program around it: the terminal, the scraper process, the network,
  the clipboard, the theme registry, JSON, and drawing with ratatui.
- `tests/` runs the library on concrete values.
