# fastfind

A GNU `find` work-alike whose command-line parser, expression evaluator and
walk decisions are verified with Verus.

- `src/` is the verified library:
  - `text.rs`: characters, strings, numbers and their decimal and octal text;
  - `expr.rs`: the expression tree, globs, comparisons and the configuration;
  - `grammar.rs`: the command-line grammar as spec functions, and its laws
    (an expression without an action prints; `-delete` implies `-depth`);
  - `parser.rs`: the parser, proved to follow the grammar;
  - `chrono_format.rs`: civil dates from day numbers, proved to round-trip;
  - `eval_spec.rs`: what evaluating an expression does, step by step, and its
    laws (`-quit`, short circuits, replaying answers);
  - `eval.rs`: the evaluator, proved to follow that description;
  - `batch.rs`: the commands of `-exec ... {} +` and `-execdir ... {} +`;
  - `walker.rs`: the decisions of the directory walk, and the sequential
    walk (`-depth`, `-prune`) as a step function with its laws (with
    `-depth` a directory is evaluated after its contents; nothing below a
    pruned directory is walked; a directory's children are entered once
    each, in the order listed);
  - `cli.rs`: the version banner, with the build's source revision.
- The evaluator does no I/O itself: it returns the next request it needs (the
  metadata, a write, a command to run, ...) and is called again with the
  answers so far. The sequential walk works the same way: it asks for
  metadata, directory listings and evaluations. `app/` is the program around
  them: it reads the command line, reads the filesystem, performs the
  requests, and prints help.
- `tests/` runs the library on concrete inputs.
