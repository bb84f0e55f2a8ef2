# Botbox core

Botbox is an SSH client for remote bots: it keeps an inventory of bots and one signing key,
connects to a bot, opens a host shell and an attach terminal on it, and forwards its
dashboard to a local port.

`src/` is the library. It is verified with Verus, but for the few functions that call into
other crates, whose claims are believed. Sockets, timers, files and the keychain stay outside
and hand the library what came of each step as plain values.

| module | what it holds |
| --- | --- |
| `store` | bots, defaults, the inventory operations |
| `keychain` | the storage boundary of the signing key, the public-key cache |
| `files` | what comes of reading and writing the JSON documents |
| `ssh::keys` | SSH keys as plain values, and the calls into the key crates |
| `ssh::signer` | generating, publishing, signing, exporting |
| `ssh::auth` | framing a signature for public-key authentication |
| `ssh::known_hosts` | trust on first use |
| `ssh::host_check` | the host-key check with its trust prompt |
| `ssh::pipeline` | connect stages and error classes |
| `ssh::connection` | the staged connect, loss detection, the one active connection |
| `ssh::channels` | opening terminals, coalescing their output |
| `ssh::forward` | the dashboard probe and the local end of the tunnel |

`app/` is a small command-line program around the library.

## How to read the contracts

A type with text or lists in it has a `..View` type, its model; contracts compare models.
What an outside crate computes from plain values has a name without a body, such as
`openssh_public`, and the function that makes the call states what is claimed of it. These
functions are marked `external_body`: their claims are believed, not proved.

Public proof functions state what holds across calls, such as that generating a key twice
answers the same key, that a saved host key is never replaced in silence, or that terminal
output arrives byte for byte.
