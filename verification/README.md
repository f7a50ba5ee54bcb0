# ohyper

A small x86-64 hypervisor kernel, split into a verified library (`src/`)
and the kernel around it (`app/`).

`src/` holds the decisions, each with a contract proved by Verus:

- `cpu`: VMX detection through CPUID.
- `vmx`: the protocol that enables VMX operation (feature-control MSR,
  CR0/CR4 fixed bits, VMXON region, VMXON), as a state machine that asks
  for one hardware action at a time, plus the checks on the region's
  allocation.
- `memory`: physical frames and the boot frame allocator.
- `uart`: the serial port's set-up sequence and its polling transmitter.
- `mapper`, `status`: the kernel's mapper slot and set-up flag.

`app/` performs the hardware work the library asks for: MSR, control
register and port access, memory allocation, VMXON, console output.
