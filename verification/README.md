# warp-cors

A CORS proxy: a page asks it for a URL on another origin, and it fetches the URL
and hands the answer back with the headers that let the page read it. It does not
fetch from the device that it runs on.

`src/` is the verified library:

- `address`: IP addresses as numbers, and which of them mean this host
- `target`: the URL that a page asks for
- `ssrf`: which targets and redirects are refused and why, and which addresses
  the HTTP client may connect to
- `headers`: which header fields travel to the target and back
- `client`: the head of the request to a target, and of its answer
- `error`: what a failure is answered with
- `routes`: which requests are served, and who may read the answers

A check that needs a name looked up, or needs to know whether the device answers
on an address, stops in a state that says so and goes on when it is told.

`app/` is the server around the library: it takes requests apart, looks names up,
binds sockets, sends requests, runs the checks to their ends and puts the headers
on the answers. `tests/` runs the library.
