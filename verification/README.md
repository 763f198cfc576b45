# container-runtime

A small Linux container runtime: a daemon that builds images from
Dockerfiles and starts containers on overlay filesystems, and a client that
sends it commands over a Unix socket and follows the feedback.

`src/` is the verified library (Verus): Dockerfile parsing, the layout of
images and containers under the install path, the commands and their
descriptions, client ids, the controllers' decisions, and the text
primitives they rest on, each with its contract, plus the laws it keeps
(`law_*` proof functions). `app/` is the program around it: sockets, JSON,
the command line, file copies, mounts, namespaces and processes.
`tests/` runs the library on examples.
