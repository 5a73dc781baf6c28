# wasm_host

The host side of sandboxed detection plugins. A plugin is a WebAssembly component that looks at an
HTTP request and states a decision on it. Everything that it learns or reaches, it learns or reaches
through the host.

`src/` is the verified part of the host.

| Module        | What it holds                                                            |
|---------------|--------------------------------------------------------------------------|
| `context`     | the state of one plugin on one request, and the calls the plugin makes   |
| `instance`    | a plugin together with the request that it processes                     |
| `plugin`      | loading plugins, their configuration and their grants                    |
| `wasm`        | the engine that plugins are compiled for                                 |
| `permissions` | which variables, domains and state keys a plugin may use                 |
| `outbound`    | outbound requests that a plugin assembles piece by piece                 |
| `remote`      | the commands that are sent to Redis, and what is shown of the answers    |
| `scripts`     | the Lua scripts of the rate limiter and the circuit breaker              |
| `json`        | the parameters that plugins share while a request is processed           |
| `decision`    | decisions, outcomes and tags                                             |
| `interface`   | what crosses the sandbox boundary                                        |
| `refusal`     | why a call is turned down                                                |
| `laws`        | what holds of the host as a whole                                        |

`app/` is the ordinary Rust around it: the WebAssembly runtime, the network, the environment and
the connection to Redis. Before a call that can be turned down, it asks the library whether it
would be, and ends the plugin with the message of the refusal where it is.

Floating-point numbers are kept as the bits of their IEEE 754 representation.
