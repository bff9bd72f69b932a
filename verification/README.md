# opencad-storm-sewer-plugin

Storm Sewer add-on for Open CAD Studio: placement, editing, validation,
analysis reports and Pro licensing for gravity storm-drain networks.

The command logic is a library verified with Verus (`src/`); the plugin shell
around it (`app/`) talks to the host, the drawing, the hydraulic engine, the
file system and the licensing server.

## Library (`src/`)

| Module | What it decides |
|--------|-----------------|
| `commands` | which `SS_*` command a line is, and which commands need Pro |
| `license`, `license_cmd` | key format, activation outcomes, the cached license, the weekly re-check with its offline grace, the `SS_LICENSE` / `SS_ACTIVATE` text |
| `dates` | day numbers of calendar dates and the timestamps the license file stores |
| `params` | what an `SS_PARAMS` line asks for |
| `network`, `validation` | node/pipe naming and connectivity, the integrity warnings |
| `tables`, `report` | the analysis, node, sizing, inlet and multi-return-period reports |
| `edit`, `placement`, `picking`, `landxml`, `style` | argument forms of the editing and placement commands, the pipe-run picks, LandXML pipe attachment, result colouring |
| `html_report` | report file names and the HTML page |
| `text` | trimming, splitting, decimals and UTF-8 lengths |

Laws are public proof functions named `law_*`.

## Plugin (`app/`)

`app/lib.rs` exports the plugin; its modules read and write the drawing's
XDATA, run the engine (all real-valued computation), read and write the
license file, and send validation requests.
