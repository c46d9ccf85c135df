//! The compiler front door: an additive builder that collects module
//! source fragments and runs the whole pipeline — parse, resolve
//! references, resolve defaults, assign tags, generate — in one
//! synchronous, all-or-nothing compile call.
//!
//! `compile_to_string` is proved equal to `spec_compile`, a function of
//! the source text alone; compiling the same text therefore always
//! yields the same output (see `lemma_compile_deterministic`).

use vstd::prelude::*;

use crate::intermediate::Assignment;
use crate::intermediate::AssignmentV;
use crate::intermediate::CompilerError;
use crate::intermediate::CompilerErrorV;
use crate::intermediate::Module;
use crate::intermediate::ModuleV;

verus! {

use vstd::string::StringExecFns;

/// One parsed source: the module, checked to leave only whitespace
/// behind.  Errors carry the position of the unconsumed remainder.
pub open spec fn spec_parse_source(s: Seq<char>) -> Result<ModuleV, CompilerErrorV> {
    if s.len() > crate::parser::spec_max_input() {
        Err(CompilerErrorV::InputTooLong)
    } else {
        match crate::parser::spec_module(s, crate::parser::spec_parse_fuel(s.len())) {
            Err(rem) => Err(CompilerErrorV::Syntax { position: (s.len() - rem.len()) as usize }),
            Ok((m, rem)) => {
                let tail = crate::lexer::spec_skip_ws(rem);
                if tail.len() == 0 {
                    Ok(m)
                } else {
                    Err(CompilerErrorV::Syntax { position: (s.len() - tail.len()) as usize })
                }
            },
        }
    }
}

/// All sources parsed, in order.
pub open spec fn spec_parse_all(srcs: Seq<Seq<char>>) -> Result<Seq<ModuleV>, CompilerErrorV>
    decreases srcs.len(),
{
    if srcs.len() == 0 {
        Ok(Seq::empty())
    } else {
        match spec_parse_source(srcs[0]) {
            Err(e) => Err(e),
            Ok(m) => match spec_parse_all(srcs.skip(1)) {
                Err(e) => Err(e),
                Ok(rest) => Ok(seq![m] + rest),
            },
        }
    }
}

/// The merged resolution context: the assignments of every module, in
/// order, so forward references across fragments are legal.
pub open spec fn spec_merge(ms: Seq<ModuleV>) -> Seq<AssignmentV>
    decreases ms.len(),
{
    if ms.len() == 0 {
        Seq::empty()
    } else {
        ms[0].assignments + spec_merge(ms.skip(1))
    }
}

/// The generated text of one module: the resolved, tagged and sorted
/// assignments inside a module frame.
pub open spec fn spec_gen_module(
    ctx: Seq<AssignmentV>,
    m: ModuleV,
    asgs: Seq<AssignmentV>,
    fuel: nat,
) -> Seq<char> {
    "pub mod "@ + crate::generator::spec_snake(m.name, 0)
        + " { extern crate alloc; use rasn::prelude::*; use lazy_static::lazy_static; "@
        + spec_gen_body(ctx, crate::generator::spec_sort_assignments(asgs), m.tagging, fuel)
        + "} "@
}

/// The concatenated declaration groups of a module body.
pub open spec fn spec_gen_body(
    ctx: Seq<AssignmentV>,
    asgs: Seq<AssignmentV>,
    mode: crate::intermediate::TaggingMode,
    fuel: nat,
) -> Seq<char>
    decreases asgs.len(),
{
    if asgs.len() == 0 {
        Seq::empty()
    } else {
        crate::generator::spec_gen_assignment(ctx, asgs[0], mode, fuel) + spec_gen_body(
            ctx,
            asgs.skip(1),
            mode,
            fuel,
        )
    }
}

/// The pipeline on parsed modules: resolve references, resolve
/// defaults, assign tags, generate — each stage terminal on failure.
pub open spec fn spec_compile_modules(ms: Seq<ModuleV>) -> Result<Seq<char>, CompilerErrorV> {
    let ctx0 = spec_merge(ms);
    if ctx0.len() + 1 > usize::MAX {
        Err(CompilerErrorV::InputTooLong)
    } else {
        let rfuel = (ctx0.len() + 1) as nat;
        match crate::resolver::spec_resolve_references(ctx0, ctx0, rfuel) {
            Err(e) => Err(e),
            Ok(ctx_a) => match crate::resolver::spec_resolve_defaults(ctx_a, ctx_a, rfuel) {
                Err(e) => Err(e),
                Ok(ctx_b) => spec_gen_modules(ctx0, ctx_a, ctx_b, ms, rfuel),
            },
        }
    }
}

/// One module resolved against the merged context and generated.
pub open spec fn spec_gen_one(
    ctx0: Seq<AssignmentV>,
    ctx_a: Seq<AssignmentV>,
    m: ModuleV,
    rfuel: nat,
) -> Result<Seq<char>, CompilerErrorV> {
    match crate::resolver::spec_resolve_references(ctx0, m.assignments, rfuel) {
        Err(e) => Err(e),
        Ok(a1) => match crate::resolver::spec_resolve_defaults(ctx_a, a1, rfuel) {
            Err(e) => Err(e),
            Ok(a2) => {
                let a3 = crate::resolver::spec_assign_tags(a2, m.tagging);
                Ok(spec_gen_module(ctx_a, m, a3, rfuel))
            },
        },
    }
}

/// Generates every module against the merged resolved context.
pub open spec fn spec_gen_modules(
    ctx0: Seq<AssignmentV>,
    ctx_a: Seq<AssignmentV>,
    ctx_b: Seq<AssignmentV>,
    ms: Seq<ModuleV>,
    rfuel: nat,
) -> Result<Seq<char>, CompilerErrorV>
    decreases ms.len(),
{
    if ms.len() == 0 {
        Ok(Seq::empty())
    } else {
        match spec_gen_one(ctx0, ctx_a, ms[0], rfuel) {
            Err(e) => Err(e),
            Ok(text) => match spec_gen_modules(ctx0, ctx_a, ctx_b, ms.skip(1), rfuel) {
                Err(e) => Err(e),
                Ok(rest) => Ok(text + rest),
            },
        }
    }
}

/// Resolves and emits one module; the twin of `spec_gen_one`.
fn emit_module(
    out: &mut Vec<char>,
    ctx0: &Vec<Assignment>,
    ctx_a: &Vec<Assignment>,
    m: &Module,
    rfuel: usize,
) -> (r: Result<(), CompilerError>)
    ensures
        match r {
            Ok(_) => spec_gen_one(
                ctx0.deep_view(),
                ctx_a.deep_view(),
                m.deep_view(),
                rfuel as nat,
            ) matches Ok(text) && final(out)@ == old(out)@ + text,
            Err(e) => spec_gen_one(
                ctx0.deep_view(),
                ctx_a.deep_view(),
                m.deep_view(),
                rfuel as nat,
            ) == Err::<Seq<char>, _>(e.deep_view()) && final(out)@ == old(out)@,
        },
{
    let a1 = match crate::resolver::resolve_references_of(ctx0, &m.assignments, rfuel) {
        Err(e) => {
            return Err(e);
        },
        Ok(v) => v,
    };
    let a2 = match crate::resolver::resolve_defaults_of(ctx_a, &a1, rfuel) {
        Err(e) => {
            return Err(e);
        },
        Ok(v) => v,
    };
    let a3 = match crate::resolver::assign_tags(&a2, m.tagging) {
        Err(e) => {
            return Err(e);
        },
        Ok(v) => v,
    };
    proof {
        assert(a3.deep_view().skip(0) =~= a3.deep_view());
    }
    let sorted = crate::generator::sort_assignments(&a3, 0);
    crate::text::push_str_chars(out, "pub mod ");
    crate::generator::push_snake(out, &m.name);
    crate::text::push_str_chars(
        out,
        " { extern crate alloc; use rasn::prelude::*; use lazy_static::lazy_static; ",
    );
    let mut j: usize = 0;
    let ghost body0 = out@;
    proof {
        assert(sorted.deep_view().skip(0) =~= sorted.deep_view());
    }
    while j < sorted.len()
        invariant
            j <= sorted@.len(),
            body0 + spec_gen_body(
                ctx_a.deep_view(),
                sorted.deep_view(),
                m.tagging,
                rfuel as nat,
            ) == out@ + spec_gen_body(
                ctx_a.deep_view(),
                sorted.deep_view().skip(j as int),
                m.tagging,
                rfuel as nat,
            ),
        decreases sorted@.len() - j,
    {
        proof {
            assert(sorted.deep_view().skip(j as int)[0] == sorted.deep_view()[j as int]);
            assert(sorted.deep_view().skip(j as int).skip(1) =~= sorted.deep_view().skip(
                j + 1,
            ));
            assert(sorted.deep_view()[j as int] == sorted@[j as int].deep_view());
        }
        crate::generator::push_assignment(out, ctx_a, &sorted[j], m.tagging, rfuel);
        proof {
            assert(out@ + spec_gen_body(
                ctx_a.deep_view(),
                sorted.deep_view().skip(j + 1),
                m.tagging,
                rfuel as nat,
            ) =~= body0 + spec_gen_body(
                ctx_a.deep_view(),
                sorted.deep_view(),
                m.tagging,
                rfuel as nat,
            ));
        }
        j = j + 1;
    }
    proof {
        assert(sorted.deep_view().skip(sorted@.len() as int) =~= Seq::<AssignmentV>::empty());
        assert(out@ + Seq::<char>::empty() =~= out@);
    }
    crate::text::push_str_chars(out, "} ");
    proof {
        assert(out@ =~= old(out)@ + spec_gen_one(
            ctx0.deep_view(),
            ctx_a.deep_view(),
            m.deep_view(),
            rfuel as nat,
        )->Ok_0);
    }
    Ok(())
}

/// The whole compile call as a function of the source text.
pub open spec fn spec_compile(srcs: Seq<Seq<char>>) -> Result<Seq<char>, CompilerErrorV> {
    match spec_parse_all(srcs) {
        Err(e) => Err(e),
        Ok(ms) => spec_compile_modules(ms),
    }
}

/// Compiling identical input yields identical generated text: the
/// outcome of a compile call is a function of the source fragments
/// alone, with no other state.
pub proof fn lemma_compile_deterministic(a: RasnCompiler, b: RasnCompiler)
    requires
        a.sources.deep_view() == b.sources.deep_view(),
    ensures
        spec_compile(a.sources.deep_view()) == spec_compile(b.sources.deep_view()),
{
}

/// The additive compiler builder: register source fragments, then run
/// one compile call.
pub struct RasnCompiler {
    pub sources: Vec<String>,
}

impl RasnCompiler {
    /// A fresh compiler instance with no sources and no other state.
    pub fn new() -> (r: RasnCompiler)
        ensures
            r.sources.deep_view() == Seq::<Seq<char>>::empty(),
    {
        let r = RasnCompiler { sources: Vec::new() };
        proof {
            assert(r.sources.deep_view() =~= Seq::<Seq<char>>::empty());
        }
        r
    }

    /// Registers one module source fragment.
    pub fn add_asn_literal(self, literal: &str) -> (r: RasnCompiler)
        ensures
            r.sources.deep_view() == self.sources.deep_view().push(literal@),
    {
        let ghost pre = self.sources.deep_view();
        let mut sources = self.sources;
        sources.push(String::from_str(literal));
        proof {
            assert(sources.deep_view() =~= pre.push(literal@));
        }
        RasnCompiler { sources }
    }

    /// Runs the full pipeline on the registered sources: the generated
    /// text (with an empty warning list) exactly as `spec_compile`
    /// describes it, or the first error encountered.
    #[verifier::rlimit(100)]
    pub fn compile_to_string(self) -> (r: Result<(String, Vec<String>), CompilerError>)
        ensures
            match r {
                Ok((text, warnings)) => {
                    &&& spec_compile(self.sources.deep_view()) == Ok::<_, CompilerErrorV>(text@)
                    &&& warnings@.len() == 0
                },
                Err(e) => spec_compile(self.sources.deep_view()) == Err::<Seq<char>, _>(
                    e.deep_view(),
                ),
            },
    {
        let ghost srcs = self.sources.deep_view();
        let mut modules: Vec<Module> = Vec::new();
        let mut k: usize = 0;
        proof {
            assert(srcs.skip(0) =~= srcs);
            crate::parser::lemma_deep_empty(modules);
        }
        while k < self.sources.len()
            invariant
                k <= self.sources@.len(),
                srcs == self.sources.deep_view(),
                spec_parse_all(srcs) matches Ok(full) ==> spec_parse_all(srcs.skip(k as int))
                    matches Ok(rest) && full == modules.deep_view() + rest,
                spec_parse_all(srcs) matches Err(e) ==> spec_parse_all(srcs.skip(k as int))
                    matches Err(e2) && e == e2,
            decreases self.sources@.len() - k,
        {
            proof {
                assert(srcs.skip(k as int)[0] == srcs[k as int]);
                assert(srcs.skip(k as int).skip(1) =~= srcs.skip(k + 1));
                assert(srcs[k as int] == self.sources@[k as int]@);
            }
            let chars = crate::text::chars_of(self.sources[k].as_str());
            let fuel = match crate::parser::parse_fuel(&chars) {
                Some(f) => f,
                None => {
                    return Err(CompilerError::InputTooLong);
                },
            };
            proof {
                assert(chars@.skip(0) =~= chars@);
            }
            match crate::parser::module(&chars, 0, fuel) {
                Err(p) => {
                    return Err(CompilerError::Syntax { position: p });
                },
                Ok((m, p)) => {
                    let tail = crate::lexer::skip_ws(&chars, p);
                    if tail < chars.len() {
                        return Err(CompilerError::Syntax { position: tail });
                    }
                    proof {
                        assert(chars@.skip(tail as int) =~= Seq::<char>::empty());
                    }
                    let ghost md = modules.deep_view();
                    let ghost mv = m.deep_view();
                    modules.push(m);
                    proof {
                        assert(modules.deep_view() =~= md.push(mv));
                        if spec_parse_all(srcs) is Ok {
                            let rest = spec_parse_all(srcs.skip(k as int))->Ok_0;
                            let rest2 = spec_parse_all(srcs.skip(k + 1))->Ok_0;
                            assert(rest =~= seq![mv] + rest2);
                            assert(md + rest =~= md.push(mv) + rest2);
                        }
                    }
                },
            }
            k = k + 1;
        }
        proof {
            assert(srcs.skip(k as int) =~= Seq::<Seq<char>>::empty());
            if spec_parse_all(srcs) is Ok {
                assert(spec_parse_all(srcs)->Ok_0 =~= modules.deep_view());
            }
        }
        // Merge every module's assignments into one resolution context.
        let mut ctx0: Vec<Assignment> = Vec::new();
        let mut k2: usize = 0;
        proof {
            assert(modules.deep_view().skip(0) =~= modules.deep_view());
            crate::parser::lemma_deep_empty(ctx0);
        }
        while k2 < modules.len()
            invariant
                k2 <= modules@.len(),
                spec_merge(modules.deep_view()) == ctx0.deep_view() + spec_merge(
                    modules.deep_view().skip(k2 as int),
                ),
            decreases modules@.len() - k2,
        {
            proof {
                assert(modules.deep_view().skip(k2 as int)[0]
                    == modules.deep_view()[k2 as int]);
                assert(modules.deep_view().skip(k2 as int).skip(1) =~= modules.deep_view().skip(
                    k2 + 1,
                ));
            }
            let m = &modules[k2];
            let ghost c0 = ctx0.deep_view();
            let mut j: usize = 0;
            proof {
                assert(c0 + m.assignments.deep_view().take(0) =~= c0);
            }
            while j < m.assignments.len()
                invariant
                    j <= m.assignments@.len(),
                    ctx0.deep_view() == c0 + m.assignments.deep_view().take(j as int),
                decreases m.assignments@.len() - j,
            {
                let copied = crate::generator::copy_assignment_pub(&m.assignments[j]);
                let ghost cd = ctx0.deep_view();
                let ghost cv = copied.deep_view();
                ctx0.push(copied);
                proof {
                    assert(cv == m.assignments.deep_view()[j as int]);
                    assert(ctx0.deep_view() =~= cd.push(cv));
                    assert(cd.push(cv) =~= c0 + m.assignments.deep_view().take(j + 1));
                }
                j = j + 1;
            }
            proof {
                assert(m.assignments.deep_view().take(m.assignments@.len() as int)
                    =~= m.assignments.deep_view());
                assert((c0 + m.assignments.deep_view()) + spec_merge(
                    modules.deep_view().skip(k2 + 1),
                ) =~= c0 + (m.assignments.deep_view() + spec_merge(
                    modules.deep_view().skip(k2 + 1),
                )));
            }
            k2 = k2 + 1;
        }
        proof {
            assert(spec_merge(modules.deep_view().skip(modules@.len() as int)) =~= Seq::<
                AssignmentV,
            >::empty()) by {
                assert(modules.deep_view().skip(modules@.len() as int) =~= Seq::<
                    ModuleV,
                >::empty());
            }
            assert(ctx0.deep_view() + Seq::<AssignmentV>::empty() =~= ctx0.deep_view());
        }
        if ctx0.len() == usize::MAX {
            return Err(CompilerError::InputTooLong);
        }
        let rfuel = ctx0.len() + 1;
        let ctx_a = match crate::resolver::resolve_references(&ctx0, rfuel) {
            Err(e) => {
                return Err(e);
            },
            Ok(c) => c,
        };
        let ctx_b = match crate::resolver::resolve_defaults(&ctx_a, rfuel) {
            Err(e) => {
                return Err(e);
            },
            Ok(c) => c,
        };
        // Generate each module against the merged context.
        let mut out: Vec<char> = Vec::new();
        let mut k3: usize = 0;
        proof {
            assert(modules.deep_view().skip(0) =~= modules.deep_view());
        }
        while k3 < modules.len()
            invariant
                k3 <= modules@.len(),
                srcs == self.sources.deep_view(),
                spec_parse_all(srcs) == Ok::<_, CompilerErrorV>(modules.deep_view()),
                spec_merge(modules.deep_view()) == ctx0.deep_view(),
                ctx0.deep_view().len() + 1 <= usize::MAX,
                rfuel as nat == ctx0.deep_view().len() + 1,
                crate::resolver::spec_resolve_references(
                    ctx0.deep_view(),
                    ctx0.deep_view(),
                    rfuel as nat,
                ) == Ok::<_, CompilerErrorV>(ctx_a.deep_view()),
                crate::resolver::spec_resolve_defaults(
                    ctx_a.deep_view(),
                    ctx_a.deep_view(),
                    rfuel as nat,
                ) == Ok::<_, CompilerErrorV>(ctx_b.deep_view()),
                spec_gen_modules(
                    ctx0.deep_view(),
                    ctx_a.deep_view(),
                    ctx_b.deep_view(),
                    modules.deep_view(),
                    rfuel as nat,
                ) matches Ok(full) ==> spec_gen_modules(
                    ctx0.deep_view(),
                    ctx_a.deep_view(),
                    ctx_b.deep_view(),
                    modules.deep_view().skip(k3 as int),
                    rfuel as nat,
                ) matches Ok(rest) && full == out@ + rest,
                spec_gen_modules(
                    ctx0.deep_view(),
                    ctx_a.deep_view(),
                    ctx_b.deep_view(),
                    modules.deep_view(),
                    rfuel as nat,
                ) matches Err(e) ==> spec_gen_modules(
                    ctx0.deep_view(),
                    ctx_a.deep_view(),
                    ctx_b.deep_view(),
                    modules.deep_view().skip(k3 as int),
                    rfuel as nat,
                ) matches Err(e2) && e == e2,
            decreases modules@.len() - k3,
        {
            proof {
                assert(modules.deep_view().skip(k3 as int)[0]
                    == modules.deep_view()[k3 as int]);
                assert(modules.deep_view().skip(k3 as int).skip(1) =~= modules.deep_view().skip(
                    k3 + 1,
                ));
            }
            let m = &modules[k3];
            proof {
                assert(modules.deep_view()[k3 as int] == modules@[k3 as int].deep_view());
            }
            let ghost out0 = out@;
            match emit_module(&mut out, &ctx0, &ctx_a, m, rfuel) {
                Err(e) => {
                    proof {
                        assert(spec_gen_modules(
                            ctx0.deep_view(),
                            ctx_a.deep_view(),
                            ctx_b.deep_view(),
                            modules.deep_view().skip(k3 as int),
                            rfuel as nat,
                        ) == Err::<Seq<char>, _>(e.deep_view()));
                    }
                    return Err(e);
                },
                Ok(_) => {
                    proof {
                        if spec_gen_modules(
                            ctx0.deep_view(),
                            ctx_a.deep_view(),
                            ctx_b.deep_view(),
                            modules.deep_view(),
                            rfuel as nat,
                        ) is Ok {
                            let rest = spec_gen_modules(
                                ctx0.deep_view(),
                                ctx_a.deep_view(),
                                ctx_b.deep_view(),
                                modules.deep_view().skip(k3 as int),
                                rfuel as nat,
                            )->Ok_0;
                            let rest2 = spec_gen_modules(
                                ctx0.deep_view(),
                                ctx_a.deep_view(),
                                ctx_b.deep_view(),
                                modules.deep_view().skip(k3 + 1),
                                rfuel as nat,
                            )->Ok_0;
                            assert(out0 + rest =~= out@ + rest2);
                        }
                    }
                },
            }
            k3 = k3 + 1;
        }
        proof {
            assert(modules.deep_view().skip(modules@.len() as int) =~= Seq::<
                ModuleV,
            >::empty());
            if spec_gen_modules(
                ctx0.deep_view(),
                ctx_a.deep_view(),
                ctx_b.deep_view(),
                modules.deep_view(),
                rfuel as nat,
            ) is Ok {
                assert(spec_gen_modules(
                    ctx0.deep_view(),
                    ctx_a.deep_view(),
                    ctx_b.deep_view(),
                    modules.deep_view(),
                    rfuel as nat,
                )->Ok_0 =~= out@);
            }
        }
        let text = crate::text::string_of(&out);
        Ok((text, Vec::new()))
    }
}

} // verus!
