# nightkrawler

A duplicate file finder and removal tool, written as a verified library
with a thin command around it.

- `src/` is the library. Its functions carry `requires`/`ensures`
  contracts that Verus proves: the command line (`args`, `validation`,
  `size`), pathnames (`pathname`), path classes and keeper selection
  (`classify`, `keep`, `version`, `order`), the stages of the duplicate
  search (`duplicates`) and what holds of their composition (`search`), the decisions and tallies of the quarantine,
  Trash, delete, restore and cleanup runs (`plan`, `runs`, `restore`,
  `cleanup`), the quarantine manifest format (`manifest`), the report and
  the printed summaries (`report`, `output`, `size_text`, `text`), the
  framed help and manual (`manual`, `manual_text`) and their text without
  colour sequences (`plain_text`), with the facts that the shipped texts
  hold no escape character and fit a wide frame (`manual_plain`,
  `manual_fit`), the walk's decisions (`scan`), the order
  of the stages of a scan (`stages`), and facts that span these (`laws`).
- `app/` is the `nk` program: it reads the filesystem and the terminal,
  copies, trashes and deletes files, and asks the library what to do and
  what to print.
- `tests/` exercise the library on concrete inputs.
