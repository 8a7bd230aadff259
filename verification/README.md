# deploytix

The logic of an installer for Artix Linux, written in Verus. The library decides; the
program under `app/` looks things up, carries the decisions out and asks the user.

- `src/text.rs`, `src/index.rs`: texts and lists.
- `src/config/`: the configuration, its rules and the wizard that collects one.
- `src/plan.rs`: the steps that an installation consists of.
- `src/configure/`: which steps configure a target, subject by subject.
- `src/aur/`, `src/pkgdeps/`: packages of the AUR, what they depend on and how they are
  built.
- `src/cleanup/`: releasing what an installation holds, and undoing one.
- `src/dry_run.rs`: that a dry run changes nothing.

A function that plans takes what was looked up on the host as an argument and returns
steps. Its contract gives the steps exactly: which steps come out is proved. That the
program carries them out as they stand is not.
