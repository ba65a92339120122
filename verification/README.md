# azul

A terminal web browser with an assistant, written as a verified library (`src/`, checked
by Verus) and a thin program around it (`app/`).

## Layout

- `src/` — the library. Each public function has a contract; where an outside call or
  the clock decides part of a result, the contract states what holds whatever came back.
  - `text`, `json`: strings, byte lengths, splitting, JSON string literals.
  - `browser`, `fetch`: pages, what a fetched body becomes (documents, PDFs, images,
    binary files), link resolution, the choice of JavaScript rendering.
  - `search`, `engines`: query prefixes, the engines' requests and how their answers
    become results and pages.
  - `tabs`: tabs and their navigation history.
  - `app`: the browser's state and what every key and message does to it, as a state
    machine that hands the program the work to do (`Effect`).
  - `chat`, `assistant`, `ai`: the chat session, the tools offered to the model, what a
    tool call asks of the browser, the prompts and how replies are read.
  - `rag`, `memory`: the knowledge base and the memory graph: requests and replies.
  - `storage`, `config`, `fixtures`, `scrape`, `mascot`.
  - `ui`: colours, themes, pane layout, markdown rendering, chat panel lines, borders.
- `app/` — the program: command line, terminal, HTTP, SQLite, threads, drawing.
- `tests/` — tests of the library.
