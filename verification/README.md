# meatshell

The verified core of MeatShell: trust-on-first-use host keys for SSH and SFTP, and the loopback
tunnels of RDP sessions.

- `src/` is the library. Its functions carry contracts that Verus proves. The known_hosts
  check (`host_keys`), the RDP tunnel (`rdp`) and the launch of an RDP client (`launcher`) are state
  machines: each is told what happened and says what to do next. `host_keys_laws` and `rdp_laws`, and
  the laws at the end of `rdp_file` and `launcher`, state what holds of them as a whole.
- `tests/` runs the library on concrete values, with the real `russh`, `ssh_key` and `uuid`.
- `app/` performs what the state machines ask for: files, sockets and processes.

What is taken on trust of other crates stands behind the functions marked `external_body` in `keys`,
`host_keys` and `rdp_file`, and of std in the `assume_specification` of `text`; the documentation of
each says what is claimed.
