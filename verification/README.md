# Zero Sugar

A desugarer for JavaScript: it rewrites `switch`, `continue`, `finally`,
`for`, `do-while` and destructuring declarations into simpler constructs
(`if`-chains, labeled `break`, `try/catch`, `while` loops, step-by-step
declarations). The library is written in Verus; each rewrite states its result
exactly over a mathematical model of the syntax tree, and the tree mapper that
drives the rewrites is proved against a model of its traversal: with no
visitor or the break relabeling (`mapper_spec`), and with the desugaring
visitor (`desugar_model`), whose model gives exactly what desugaring a program
returns.

Layout:

- `src/ast.rs`: the syntax tree; `src/spec_ast.rs`: its model and the views.
- `src/mapper*.rs`: the tree mapper, one module per group of nodes;
  `src/mapper_spec.rs`: what the mapper computes when it only relabels breaks.
- `src/transforms/`: the rewrites, one module per construct.
- `src/pipeline.rs`: the visitor that runs the rewrites;
  `src/program.rs`: the whole desugaring of a program, proved to leave no
  `switch`, `continue`, `do-while`, `for` or `finally` behind;
  `src/sugar.rs`: what "no sugar left" means;
  `src/desugar_model.rs`: the model of the whole desugaring;
  `src/mapper_size.rs`: the size measure of the mapper's descent.
- `app/`: the web entry points (parsing, printing, conversion from and to the
  parser's tree) and a read-only walker over the parser's tree.
- `tests/`: tests on hand-built trees.
