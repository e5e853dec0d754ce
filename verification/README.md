# noema

The core of the Noema desktop client, verified with Verus.

- `src/` is the library. Each module states its behaviour as `requires` /
  `ensures` contracts over spec functions and views, and Verus proves them:
  message display models and alternates (`display`, `chat`, `model`),
  attachment and PDF handling (`attachments`, `pdf`, `compose`, `files`),
  Google Docs import planning and the Docs MCP tools (`gdocs`, `doctabs`,
  `import`, `gdocs_tools`), MCP server settings and the OAuth flows (`mcp`,
  `oauth`), voice coordination and activity detection (`voice`, `vad`,
  `audio`), the daemon and engine event routing (`events`, `session`,
  `responses`, `agent`), and the small text, URL and base64 utilities they
  share (`text`, `percent`, `b64`, `http`, `strmap`).
  Calls into outside crates (base64, url, uuid, flate2, image) go through
  small trusted wrappers whose contracts are documented next to them. The
  PDF readers (pdf-extract, lopdf, pdfium) and the HTML-to-Markdown
  converter (html2md) are not shown to be panic-free, so they run in `app/`
  under `catch_unwind` and hand what they read to the library.
- `tests/` runs the library on concrete values.
- `app/` is the runtime around it: HTTP clients, the OAuth callback server,
  the Google Docs MCP server, the voice WebSocket pump, audio capture and
  sample conversion, the PDF readers, the asset protocol and logging.
