# layout_trait

Reports where a value lies in memory: the regions it occupies, each as a start address
and a size in bytes, appended in order to a `Vec<Layout>`.

- `src/layout.rs`: the `Layout` entry, the model of a report (`appends_regions`) and the
  laws on consecutive reports.
- `src/traits.rs`: the `GetLayout` and `GetLayoutType` traits, `value_layout` (the region of
  a value itself) and `target_layout` and `record_target` (the region a `Deref` proxy points to). A type
  whose report is verified says so with `layout_is_specified`; for any other type the
  traits' contracts claim nothing.
- `src/primitives.rs`: the implementations. Integers, `bool`, `char`, `()`, tuples of up
  to four elements, `Option`, `Result`, `Vec` and `String` report their own region; an
  array `[T; N]` reports one region of `N` times the size of `T`; `&U`, `&mut U`, `Box`,
  `Rc`, `Arc` and `ManuallyDrop` report the value they point to.
- `src/address.rs`: the call that reads an address, and the size of an array type.
- `app/lib.rs`: the same reports handed to a closure as `(address, size)`.

A structure reports its fields in order by calling their `get_layout` in turn; a
peripheral proxy reports the block it dereferences to with `record_target`.

Types with no implementation here (longer tuples, `Cell`, the rest of std's types, and
the user's own types) get one by implementing the traits, with `value_layout` for the
value's own region or `record_target` for a proxy's target. Two wrappers are left out on
purpose:

- `MaybeUninit<T>` and `UnsafeCell<T>`: a wrapped value should report the regions of the
  value inside it (a wrapped structure its fields, a wrapped proxy its target). Reaching
  that value takes `assume_init_ref` or a raw pointer out of `UnsafeCell::get`, both
  `unsafe`, so no layout of a wrapped value can be given. Reporting the wrapper as one
  region instead would be wrong for every wrapped structure, so neither type has an
  implementation.

Addresses are facts of where a value was placed, so the contracts say of each reported
address only what holds wherever that is: it is not 0 and it is aligned for the type
whose region it is. That two reports of the same value give the same address, or that a
proxy's report by type and by value agree, is therefore not stated; the tests check it.
