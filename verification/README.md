# modlist_manager

A manager of mod lists for The Witcher 3, served as a small local web
application. A modlist is a folder with six sub-folders (mods, DLCs, menus,
saves, content scripts, bundles) and an ordered list of the modlists it
imports; installing it links the game's folders to its own.

## Layout

- `src/` is the verified library, written in Verus:
  - `modlist`, `import_laws`: the modlist and its import list, with the laws
    of importing, removing and reordering imports, and of the configuration
    file.
  - `paths`, `layout`: paths as components on a base directory, and where a
    modlist and the game keep their folders.
  - `facts`, `plan`, `modlist_disk`, `symlinks`, `setup`: the decisions taken
    over what was observed of the disk, as plans of file-system work, and the
    runs of those plans and of the first setup as state machines.
  - `merge`: the resolution of script-merge conflicts on the bytes of a file.
  - `api`, `pages`, `components`, `text`, `assets`: the answers of the API,
    what the pages show, and their style sheets, scripts and help texts.
- `tests/` runs the library on concrete values.
- `app/` is the program around it: the web server, the pages' HTML, the file
  system and the script merger's web socket. It carries out the library's
  plans and is not verified.
