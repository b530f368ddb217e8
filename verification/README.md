# secwast

Parsing and encoding of WebAssembly text expressions whose memory accesses carry
information-flow labels, verified with Verus.

An expression is read from a list of tokens into a flat list of instructions.
Folded instructions, blocks and conditionals may nest to any depth without deep
recursion. Every instruction that accesses a memory must be labeled, as in
`@label "secret" i32.load`; labels leave nothing in the binary form. A branch
hint must be followed by the `br_if` or the `if` that it applies to.

- `token`, `parser`: tokens, the cursor over them, annotations.
- `text`, `literal`, `bytes`, `atoms`, `types`: text, numbers, indices and types.
- `memory`, `control`, `gc`, `simd`: the operands of instructions.
- `opcode`, `instruction`, `labels`: the instructions.
- `grammar`: what a text of nested groups denotes; `expr` parses just that.
- `encode`: the binary form.
- `laws`, `folding`, `positions`, `tracking`: what holds in general; `unplaced`
  compares instructions without the positions of their operands.
- `composition`: what a text denotes that is made of other texts, folded or flat;
  `placement`, `texts`, `boundaries` and `parts` show that a text denotes the same
  wherever it stands.
