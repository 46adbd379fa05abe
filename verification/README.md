# NiFi operator

A Kubernetes operator that runs Apache NiFi clusters. Its decisions are a library that is verified
with Verus: what a cluster definition means once it is merged and validated, which Kubernetes objects
follow from it and what stands in them, the files that NiFi reads, in which order objects are applied,
and when a cluster may be updated. Two things that NiFi reads are written outside of the library, by
the program: the authorizers of the Open Policy Agent and the properties of OpenID Connect.

## Layout

- `src/` is the library. Its functions have contracts. Verus proves them, except those of the few
  functions and types that stand for other crates and for parts of the standard library, which are
  believed.
  - `crd` holds the definition of a cluster: defaults, merging, authentication classes.
  - `controller` turns a definition into objects. `dereference` says what has to be fetched,
    `validate` checks it, `build` builds the objects and the files of NiFi, `reconcile` and `rollout`
    give the order of the steps, `rolegroup` builds the objects of one role group straight from the
    definition.
  - `security` is how users are authenticated and authorized.
  - `zookeeper_cluster` is the definition of clusters that are coordinated by ZooKeeper alone, and
    their files.
  - `pod_cluster` runs nodes as single pods and keeps the monitoring of a cluster as it is wanted.
  - `framework`, `kubernetes`, `ordered_map`, `ordered_set`, `list`, `text` and `contents` are what
    these are made from.
- `app/` is the program, which is not verified: it talks to Kubernetes and to NiFi, calls the
  frameworks of the operator and hands plain values to the library. `app/framework.rs` writes the two
  things named above.
- `tests/` runs the library on concrete clusters.

## Reading the contracts

Each type has a view, its contents as mathematical values; `deep_view` gives it. A contract states
that the view of the result is a spec function of the views of the arguments. Proof functions whose
name starts with `law_` state what holds across functions, for example that every step of a
reconciliation brings it closer to its end, or that overrides of the user win over settings of the
operator.

What the library has from other crates stands behind small functions marked `external_body`. Verus
does not read their bodies: every proof that uses one rests on its contract, and its comment says what
is believed of the call. Where the result of a call is not fixed by its arguments, what follows stands
in a function that takes the result and has an exact contract; mostly it has the name of the function
that makes the call, with `_with` behind it.
