# binarylane_controller

The verified core of a Kubernetes controller that provisions BinaryLane
servers for Nodes and renders cloud-init user-data for autoscaling groups.

- `src/` is the verified library:
  - `string_map` — a string-to-string map kept in key order (labels,
    resolved variables);
  - `crd` — the `AutoScalingGroup` resource types;
  - `user_data` — template-variable validation, error messages, rendering;
  - `template` — the MiniJinja calls behind rendering;
  - `resolve` — resolving variables from literals, Secrets and ConfigMaps;
  - `status` — the gRPC status a templating error is answered with;
  - `provision` — which Nodes ask for a server, and the provisioning steps;
  - `text` — decimal and UTF-8 conversions.
- `app/` performs the cluster and cloud I/O that the library's decisions call
  for, and holds the `AutoScalingGroup` custom resource as it is stored.
- `tests/` exercises the library with the real outside crates linked.
