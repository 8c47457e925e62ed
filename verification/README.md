# forgekit

The verified core of ForgeKit, a local-first media and PDF toolkit that
drives external tools (qpdf, Ghostscript, ocrmypdf, exiftool, libvips,
ImageMagick, ffmpeg).

The library (`src/`, verified with Verus) decides everything the toolkit
decides:

- `pages`: page specifications (`1-3,5,7-`, `odd`, `!2`), their display and
  their expansion into qpdf page lists;
- `image`, `audio`: formats, extensions, codecs;
- `platform`: platform and distribution detection, install hints;
- `tools`: the exact arguments and `--plan` text of each tool operation,
  the reading of what tools print, and `tools::probe`, the decisions taken
  while looking a tool up;
- `job`: job specifications and descriptions, progress events, and
  `job::executor`, which turns a job and the facts gathered about the
  system into the list of steps to perform and how the job ends, and
  lists the tools a job needs looked up (none in plan mode but qpdf where
  the plan shows pages, none once an input is missing);
  `job::laws` states what holds of every job;
- `commands`: what each subcommand checks and derives before a job runs;
- `presets`, `temp`, `error`, `paths`, `text`: compression presets, names
  of temporary files, errors and exit codes, path and text helpers.

The program (`app/`) parses arguments, gathers facts (which files exist,
which tools answer), carries out the steps the library lists, prints, and
handles what needs floating point (loudness, trimming, volume, media
information).
