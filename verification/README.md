# plview

A verified parser for MediaTek preloader images, and the Binary Ninja plugin
around it.

- `src/` is the library, verified with Verus:
  - `le_bytes`: little-endian integers and byte arrays read from a buffer.
  - `mtk_loaders::gfh_headers`: the GFH header chain (file info, bootloader
    info, boot-ROM configuration, security key, anti-clone, boot-ROM security
    configuration) and the walk along it.
  - `mtk_loaders::magic`: the preloader magic and the search for it.
  - `mtk_loaders::emi`: the EMI blob and the signature at the end of an image.
  - `mtk_loaders::layout`: segments and sections.
  - `mtk_loaders` (`MTKBootRomLoader`) and `mtkpl_loader`
    (`MTKPreloaderParser`): the segment and section layout of an image.
  - `text`: numbers written out in hexadecimal and decimal, and the two
    std string conversions the library calls (UTF-8 decoding, `Debug` quoting).
- `app/` is the plugin: it reads bytes out of Binary Ninja, hands them to the
  library, and maps the segments and sections the library returns.
- `tests/` runs the library on small synthetic images.
