# backend

The decision logic of a cloud operations backend, written in Verus and
verified: AWS inventory evaluators per Well-Architected pillar, AWS account
and SDK configuration rules, Kafka cluster rules, backups, restores,
migrations and queue drains, chaos experiment runs, budgets, cost categories,
explain-plan analysis, CloudWatch scraping, metric collection and database
connection checks.

- `src/` is the verified library. Each public function states its result in
  its contract; the laws that span several functions are public proof
  functions beside them.
- `tests/` runs the library on concrete values.
- `app/` holds what the library leaves to its caller: JSON in serde's form,
  backup files on disk, the loop that performs the steps of a chaos run, and
  the floating-point figures (budgets, cost anomalies, analysis reports).
