# worker_pool

A Node.js addon in which JavaScript threads register a worker function each, and a native
function calls the workers many times over, in parallel, and adds up what they answer.

- `src/` is the library, verified with Verus. It decides: which worker a call goes to, which
  call a thread-safe function makes into Node-API next, what a status code means, what becomes of a function and all
  its handles when one of them is cloned, dropped or aborted. It holds addresses and plain values, and makes no call into
  Node-API itself.
- `app/` is the addon around it. It makes the calls that the library asks for, keeps the state
  that threads share, and calls the JavaScript function of a worker and reads its number.
- `tests/` runs the library on concrete values.

The library trusts three things, each in a function marked `external_body`: how
`napi::Status` is made from a code, how it is printed, and that `rayon` sums one answer for
each number.
