# Tome

Tome is a terminal HTTP client: projects of named endpoints (URL, method,
headers, body), a request-body editor, a response view with syntax
highlighting and search, code generation for the web, Postman export and
colour themes.

The library in `src/` holds the logic and is verified with Verus: every
public function states what it returns or changes, and the laws that relate
several calls are proved as public proof functions (the `lemma_*` items).

- `text`: string helpers (lines, trimming, search, replacement, decimal
  numbers) with their specifications.
- `keys`: key events as the components see them.
- `textinput`, `textarea`: the single-line input and the multi-line editor.
- `selector`: navigation in the selection windows (projects, endpoints,
  themes).
- `projects`: projects and endpoints, and the rules for saving them.
- `dashboard`, `requests`: the main screen's decisions for every key and
  every window event, and what a response or a failed request shows.
- `options`, `theme`: saved options and application themes.
- `syntax`, `renderer`: highlighting through syntect, the drawing
  instructions, and the response view's buffer, paging and search.
- `code_gen`, `postman`: generated client code and Postman collections.
- `components`, `messages`: the smaller components and the messages they
  exchange.

`app/` is the terminal program around the library: the anathema components,
files and directories, the clipboard and the HTTP requests. It carries out
the effects the library's decisions ask for and reports their outcome back.

`tests/` exercises the library on concrete values.
