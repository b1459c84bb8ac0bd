# rust_engine

A scalable web server with priority scheduling and server-side caching, and the
small experiments that led to it, written in Verus.

`src/` is the verified library:

- `web_server/`: request parsing (`request`), the header map (`headers`), errors,
  response statuses, file jobs and the decisions made while serving one (`job`),
  the shared file cache (`cache`), the log timestamp (`clock`) and thread names
  (`pool`).
- `priority_queue`: the queue that hands out jobs highest priority first; file
  jobs for smaller files have higher priority.
- `threadpool`: the bookkeeping of a resizable thread pool.
- `text`, `decimal`: splitting, trimming and searching text; decimal notation.
- the experiments: `text_editor`, `anagram`, `big_int`, `binary_heap`,
  `cache_objects`, `collatz`, `fizzbuzz`, `guessing`, `hw01`, `lifetime`, `pizza`,
  `rgrep`, `taylor`, and a simpler request parser with free-form errors
  (`web_server_draft`).

`app/` is the program around it: argument parsing, sockets, files, threads and
channels. It runs the server (`server`) or one of the experiments, chosen by the
first command-line word.

`tests/` exercises the library on concrete values.
