# microvmi

A cross-platform unified virtual machine introspection (VMI) interface, with
its logic written in Verus and proved against its contracts.

## Layout

- `src/` — the library.
  - `api/`: the VMI data model (page access rights, page frames, registers,
    events, driver initialization parameters) and the `Introspectable` trait
    that every driver implements.
  - `memory.rs`: the physical memory of a VM as a seekable byte stream
    (`Memory`, and `PaddedMemory`, in which missing frames read as zeros),
    read and written page by page through a driver.
  - `driver/`: the logic of each hypervisor driver (Dummy, Xen, KVM,
    VirtualBox, Memflow, Hyper-V): register conversions, event decoding,
    intercept requests, the KVM pause/resume state, the Xen domain search,
    the Memflow connector arguments.
  - `init.rs`: which drivers initialization tries, and in which order.
- `app/` — the code around the library that talks to the hypervisors, the C
  API and the command-line parameters.
- `tests/` — tests of the library.

By default only the Dummy driver is available (it introspects nothing); the
other drivers need their hypervisor's libraries.
