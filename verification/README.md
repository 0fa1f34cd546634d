# veln

A manager for FreeBSD bhyve virtual machines stored on ZFS, with a REST API
and API-key roles (admin, operator, viewer).

The library (`src/`) is verified with Verus. It holds what the manager decides
and computes: the VM lifecycle and its state machine, the host resource rule,
the host requirement checks, ZFS dataset and snapshot names, the multi-step
ZFS and bhyve operations as command sequences with a decision after each
outcome (`infrastructure::jobs`, `infrastructure::lifecycle`), cloud-init
documents, API routing and authorization, API-key file edits, and the text
handling they rest on. Each public function states its result in its
contract; the laws of the library are the public `lemma_*` proof functions.

The program (`app/`) reads the configuration, runs the commands that the
library describes, serves HTTP and prints; `tests/` exercise the library.
