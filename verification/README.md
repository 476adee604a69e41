# rustshyper-vmm

A userspace virtual machine monitor for the rustshyper hypervisor device. Its core is a library whose
behaviour is stated in contracts and proved with Verus; a small program around it talks to the device
and the terminal.

## The library (`src/`)

- `config`: the command line and the trace settings.
- `setup_header`, `boot_params`, `acpi`, `segments`: the data that a Linux guest is booted with, byte
  by byte.
- `guest`, `linux`, `boot`: putting an image and its boot data into guest memory, and the requests that
  set the guest up.
- `uart`: a 16550 serial port.
- `vmm`: the driver. It takes what happened outside (an exit, a key, a deadline) and says what to do
  next.
- `paging`, `diagnostics`: reading guest memory through the guest's page tables, and what is told of a
  guest that stopped.
- `ioctl`, `layout`, `api`: the device's requests and the structures they carry.
- `terminal`, `error`, `text`, `bytes`: what the others need.

Proof functions named `law_..` state what holds of several functions together, such as that a loaded
kernel finds its parameters, or that what is typed reaches the guest.

## The program (`app/`)

`app/` opens the device, maps memory, puts the terminal into raw mode, and performs the actions that
`vmm` asks for.

```bash
rustshyper-vmm \
  --guest ./bzImage \
  --initrd ./initramfs.cpio.gz \
  --cmdline "console=ttyS0 earlycon=uart8250,io,0x3f8 rdinit=/init nokaslr" \
  --mem-size 0x4000000 \
  --vcpus 4
```

`--vcpus N` creates vCPU 0 and, next to it, vCPUs 1 to N-1, which the guest finds in its ACPI tables.
`--idle-cpus N` stands for `--vcpus N+1`.
