# vhost-device-ssr

A vhost-user backend that emulates a Virtio SSR (subsystem restart) proxy. The
program registers clients with the platform's SSR client library and sends the
events that the library reports to the guest, through virtio.

## Synopsis

    vhost-device-ssr --socket-path <SOCKET> --clients-groups <CLIENTS_GROUPS>

`--clients-groups` takes the names of the clients. Names in a group are separated
by `,` and groups by `;`. Each group is served on a socket of its own: with
`--socket-path /some/path/ssr.sock --clients-groups "CDSP,CDSP1;GPDSP0,GPDSP1"`
the clients CDSP and CDSP1 are served on `/some/path/ssr.sock0`, and GPDSP0 and
GPDSP1 on `/some/path/ssr.sock1`.

The supported clients are CDSP, CDSP1, CDSP2, CDSP3, ADSP, ADSP1, ADSP2, SLPI,
GPDSP0, GPDSP1, HPASSC0, HPASSC1 and HPASSC2. ADSP1, ADSP2, CDSP2, CDSP3 and
HPASSC0 to HPASSC2 are only applicable on SA8797.

## Layout

- `src/` is the library, verified with Verus: every decision of the program, with
  its contract. `src/outside.rs` lists what it believes of other crates.
- `tests/` runs the library, in front of a real ring and real eventfds.
- `app/` is the program round the library: the command line, threads, sockets,
  the guest's ring and memory, and the calls of the SSR client library.

The values of the SSR client library's headers differ from platform to platform.
The library takes them as an argument. The program takes them from the environment
of its build, under the names that the headers give them (`SS_ID_CDSP`,
`MAGIC_CDSP0`, `SSR_EVENT_FAULT_NOTIFY` and so on).
