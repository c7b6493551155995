# jevy_binaries

Builds the static FFmpeg and PDFium binaries for the host and collects them
under `dist/`.

- `src/` is the library, written in Verus: the host's vcpkg triplet and PDFium
  asset (`platform`), the FFmpeg install command and result (`ffmpeg`), and
  three step-by-step procedures that take the outcome of each host action and
  name the next one: preparing vcpkg (`vcpkg`), installing PDFium (`pdfium`)
  and harvesting the artifacts (`harvest`). `laws` proves how these fit
  together.
- `app/` is the program: it runs git, vcpkg and the bootstrap script, talks to
  the GitHub API, unpacks the archive and copies directories, doing what the
  library asks and reporting back.
- `tests/` runs the library on concrete hosts and outcomes.
