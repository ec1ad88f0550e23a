//! Emission of the generated client's source text.

use vstd::prelude::*;
use crate::classify::{classified, classify, live, plan_view, GroupPlan, OpRef};
use crate::model::{
    text_result, Component, Document, GenError, HttpMethod, Parameter, ParameterLocation,
};
use crate::resolve::{resolve_type, type_of};
use crate::loader::{decode_document, document_matches, document_valid};
use crate::text::{snake_case, snake_case_of};
use crate::yaml::Yaml;

verus! {

/// Concatenation of a sequence of text results; the first error wins.
pub open spec fn join_results(rs: Seq<Result<Seq<char>, GenError>>) -> Result<Seq<char>, GenError>
    decreases rs.len(),
{
    if rs.len() == 0 {
        Ok(seq![])
    } else {
        match join_results(rs.drop_last()) {
            Err(e) => Err(e),
            Ok(t) => match rs.last() {
                Err(e) => Err(e),
                Ok(f) => Ok(t + f),
            },
        }
    }
}

proof fn lemma_join_step(rs: Seq<Result<Seq<char>, GenError>>, k: int)
    requires
        0 <= k < rs.len(),
    ensures
        join_results(rs.take(k + 1)) == match join_results(rs.take(k)) {
            Err(e) => Err(e),
            Ok(t) => match rs[k] {
                Err(e) => Err(e),
                Ok(f) => Ok(t + f),
            },
        },
{
    assert(rs.take(k + 1).drop_last() =~= rs.take(k));
}

proof fn lemma_join_error(rs: Seq<Result<Seq<char>, GenError>>, k: int)
    requires
        0 <= k <= rs.len(),
        join_results(rs.take(k)) is Err,
    ensures
        join_results(rs) == join_results(rs.take(k)),
    decreases rs.len() - k,
{
    if k == rs.len() {
        assert(rs.take(k) =~= rs);
    } else {
        lemma_join_step(rs, k);
        lemma_join_error(rs, k + 1);
    }
}

/// Free text as the body of a `///` comment: each line break opens a new comment line.
pub open spec fn doc_text(s: Seq<char>) -> Seq<char>
    decreases s.len(),
{
    if s.len() == 0 {
        s
    } else if s.last() == '\n' {
        doc_text(s.drop_last()) + "\n/// "@
    } else {
        doc_text(s.drop_last()).push(s.last())
    }
}

/// `doc_text`, computed.
pub fn doc_comment_text(s: &str) -> (r: String)
    ensures
        r@ == doc_text(s@),
{
    let n = s.unicode_len();
    let mut out = String::new();
    let mut start: usize = 0;
    let mut i: usize = 0;
    while i < n
        invariant
            n == s@.len(),
            start <= i <= n,
            out@ + s@.subrange(start as int, i as int) == doc_text(s@.take(i as int)),
        decreases n - i,
    {
        assert(s@.take(i + 1).drop_last() =~= s@.take(i as int));
        if s.get_char(i) == '\n' {
            assert(s@.subrange(start as int, i as int) + "\n/// "@ =~= s@.subrange(
                start as int,
                i as int,
            ) + "\n/// "@);
            out.append(s.substring_char(start, i));
            out.append("\n/// ");
            start = i + 1;
            assert(s@.subrange(start as int, start as int) =~= Seq::<char>::empty());
            assert(out@ + s@.subrange(start as int, start as int) =~= out@);
        } else {
            assert(s@.subrange(start as int, i + 1) =~= s@.subrange(start as int, i as int).push(
                s@[i as int],
            ));
            assert(out@ + s@.subrange(start as int, i + 1) =~= (out@ + s@.subrange(
                start as int,
                i as int,
            )).push(s@[i as int]));
        }
        i = i + 1;
    }
    out.append(s.substring_char(start, n));
    assert(s@.take(n as int) =~= s@);
    out
}

/// `name` is declared among `ps` as a path parameter.
pub open spec fn binds_path_parameter(ps: Seq<Parameter>, name: Seq<char>) -> bool {
    exists|k: int|
        0 <= k < ps.len() && #[trigger] ps[k].name@ == name && ps[k].location
            == ParameterLocation::Path
}

/// Scan of a path template: the format string so far, the arguments so far, and
/// the name of a placeholder that is still open.
pub open spec fn route_scan(path: Seq<char>, ps: Seq<Parameter>) -> Result<
    (Seq<char>, Seq<char>, Option<Seq<char>>),
    GenError,
>
    decreases path.len(),
{
    if path.len() == 0 {
        Ok((seq![], seq![], None))
    } else {
        match route_scan(path.drop_last(), ps) {
            Err(e) => Err(e),
            Ok((f, a, open)) => {
                let c = path.last();
                match open {
                    None => {
                        if c == '{' {
                            Ok((f, a, Some(seq![])))
                        } else if c == '}' {
                            Err(GenError::DocumentMalformed)
                        } else {
                            Ok((f.push(c), a, None))
                        }
                    },
                    Some(name) => {
                        if c == '}' {
                            if binds_path_parameter(ps, name) {
                                Ok((f + "{}"@, a + ", "@ + name, None))
                            } else {
                                Err(GenError::DocumentMalformed)
                            }
                        } else if c == '{' {
                            Err(GenError::DocumentMalformed)
                        } else {
                            Ok((f, a, Some(name.push(c))))
                        }
                    },
                }
            },
        }
    }
}

/// A path template as a format string whose placeholders are `{}`, and the
/// arguments that fill them (each written `, name`). Every placeholder must name
/// a path parameter of the operation.
pub open spec fn route_of(path: Seq<char>, ps: Seq<Parameter>) -> Result<
    (Seq<char>, Seq<char>),
    GenError,
> {
    match route_scan(path, ps) {
        Err(e) => Err(e),
        Ok((f, a, None)) => Ok((f, a)),
        Ok((_, _, Some(_))) => Err(GenError::DocumentMalformed),
    }
}

proof fn lemma_route_error(path: Seq<char>, ps: Seq<Parameter>, k: int)
    requires
        0 <= k <= path.len(),
        route_scan(path.take(k), ps) is Err,
    ensures
        route_scan(path, ps) == route_scan(path.take(k), ps),
    decreases path.len() - k,
{
    if k == path.len() {
        assert(path.take(k) =~= path);
    } else {
        assert(path.take(k + 1).drop_last() =~= path.take(k));
        lemma_route_error(path, ps, k + 1);
    }
}

fn binds_path_parameter_exec(ps: &Vec<Parameter>, name: &String) -> (r: bool)
    ensures
        r == binds_path_parameter(ps@, name@),
{
    let mut k: usize = 0;
    while k < ps.len()
        invariant
            k <= ps.len(),
            forall|j: int|
                0 <= j < k ==> !(ps@[j].name@ == name@ && ps@[j].location
                    == ParameterLocation::Path),
        decreases ps.len() - k,
    {
        if ps[k].name.eq(name) && ps[k].location == ParameterLocation::Path {
            return true;
        }
        k = k + 1;
    }
    false
}

/// `route_of`, computed.
pub fn route_format(path: &str, ps: &Vec<Parameter>) -> (r: Result<(String, String), GenError>)
    ensures
        match r {
            Ok((f, a)) => route_of(path@, ps@) == Ok::<(Seq<char>, Seq<char>), GenError>(
                (f@, a@),
            ),
            Err(e) => route_of(path@, ps@) == Err::<(Seq<char>, Seq<char>), GenError>(e),
        },
{
    let n = path.unicode_len();
    let mut fmt = String::new();
    let mut args = String::new();
    let mut start: usize = 0;
    let mut open = false;
    let mut i: usize = 0;
    while i < n
        invariant
            n == path@.len(),
            start <= i <= n,
            !open ==> route_scan(path@.take(i as int), ps@) == Ok::<
                (Seq<char>, Seq<char>, Option<Seq<char>>),
                GenError,
            >((fmt@ + path@.subrange(start as int, i as int), args@, None)),
            open ==> route_scan(path@.take(i as int), ps@) == Ok::<
                (Seq<char>, Seq<char>, Option<Seq<char>>),
                GenError,
            >((fmt@, args@, Some(path@.subrange(start as int, i as int)))),
        decreases n - i,
    {
        assert(path@.take(i + 1).drop_last() =~= path@.take(i as int));
        assert(path@.take(i + 1).last() == path@[i as int]);
        let c = path.get_char(i);
        let ghost run = path@.subrange(start as int, i as int);
        if !open {
            if c == '{' {
                fmt.append(path.substring_char(start, i));
                open = true;
                start = i + 1;
                assert(path@.subrange(start as int, start as int) =~= Seq::<char>::empty());
            } else if c == '}' {
                proof {
                    lemma_route_error(path@, ps@, i + 1);
                }
                return Err(GenError::DocumentMalformed);
            } else {
                assert(path@.subrange(start as int, i + 1) =~= run.push(c));
                assert(fmt@ + path@.subrange(start as int, i + 1) =~= (fmt@ + run).push(c));
            }
        } else {
            if c == '}' {
                let name = String::from_str(path.substring_char(start, i));
                if !binds_path_parameter_exec(ps, &name) {
                    proof {
                        lemma_route_error(path@, ps@, i + 1);
                    }
                    return Err(GenError::DocumentMalformed);
                }
                fmt.append("{}");
                args.append(", ");
                args.append(name.as_str());
                open = false;
                start = i + 1;
                assert(path@.subrange(start as int, start as int) =~= Seq::<char>::empty());
                assert(fmt@ + path@.subrange(start as int, start as int) =~= fmt@);
            } else if c == '{' {
                proof {
                    lemma_route_error(path@, ps@, i + 1);
                }
                return Err(GenError::DocumentMalformed);
            } else {
                assert(path@.subrange(start as int, i + 1) =~= run.push(c));
            }
        }
        i = i + 1;
    }
    assert(path@.take(n as int) =~= path@);
    if open {
        return Err(GenError::DocumentMalformed);
    }
    fmt.append(path.substring_char(start, n));
    Ok((fmt, args))
}

/// One parameter as it stands in a generated signature.
pub open spec fn parameter_text(p: Parameter, comps: Seq<Component>) -> Result<Seq<char>, GenError> {
    match type_of(p.schema, comps) {
        Err(e) => Err(e),
        Ok(t) => Ok(p.name@ + ": "@ + t + ", "@),
    }
}

/// The parameter list of a generated signature, in declared order.
pub open spec fn parameters_text(ps: Seq<Parameter>, comps: Seq<Component>) -> Result<
    Seq<char>,
    GenError,
> {
    join_results(ps.map_values(|p: Parameter| parameter_text(p, comps)))
}

/// `parameters_text`, computed.
pub fn parameter_list(ps: &Vec<Parameter>, comps: &Vec<Component>) -> (r: Result<String, GenError>)
    ensures
        text_result(r) == parameters_text(ps@, comps@),
{
    let ghost rs = ps@.map_values(|p: Parameter| parameter_text(p, comps@));
    let mut out = String::new();
    let mut k: usize = 0;
    while k < ps.len()
        invariant
            k <= ps.len(),
            rs == ps@.map_values(|p: Parameter| parameter_text(p, comps@)),
            join_results(rs.take(k as int)) == Ok::<Seq<char>, GenError>(out@),
        decreases ps.len() - k,
    {
        proof {
            lemma_join_step(rs, k as int);
        }
        match resolve_type(&ps[k].schema, comps) {
            Ok(t) => {
                out.append(ps[k].name.as_str());
                out.append(": ");
                out.append(t.as_str());
                out.append(", ");
                assert(out@ =~= join_results(rs.take(k as int))->Ok_0 + (ps@[k as int].name@ + ": "@
                    + t@ + ", "@));
            },
            Err(e) => {
                proof {
                    lemma_join_error(rs, k + 1);
                }
                return Err(e);
            },
        }
        k = k + 1;
    }
    assert(rs.take(ps.len() as int) =~= rs);
    Ok(out)
}

/// Name of a method in the HTTP client's vocabulary.
pub open spec fn method_name(m: HttpMethod) -> Seq<char> {
    match m {
        HttpMethod::Get => "GET"@,
        HttpMethod::Post => "POST"@,
        HttpMethod::Delete => "DELETE"@,
    }
}

fn method_name_exec(m: HttpMethod) -> (r: &'static str)
    ensures
        r@ == method_name(m),
{
    match m {
        HttpMethod::Get => "GET",
        HttpMethod::Post => "POST",
        HttpMethod::Delete => "DELETE",
    }
}

/// The text of a generated function, once its parts are known.
pub open spec fn function_layout(
    summary: Seq<char>,
    name: Seq<char>,
    params: Seq<char>,
    ret: Seq<char>,
    method: Seq<char>,
    target: Seq<char>,
    args: Seq<char>,
) -> Seq<char> {
    "    /// "@ + doc_text(summary) + "\n    pub async fn "@ + name + "("@ + params
        + ") -> crate::ApiResponseOrError<"@ + ret + "> {\n        crate::openai_call(reqwest::Method::"@
        + method + ", format!(\""@ + target + "\""@ + args + ")).await\n    }\n\n"@
}

/// The generated function for operation `r`, whose requests go to `base` followed by the path.
pub open spec fn function_text(doc: Document, base: Seq<char>, r: OpRef) -> Result<
    Seq<char>,
    GenError,
> {
    if !live(doc, r) {
        Err(GenError::DocumentMalformed)
    } else {
        let item = doc.paths@[r.path as int];
        let op = item.spec_operation(r.method)->Some_0;
        match parameters_text(op.parameters@, doc.components@) {
            Err(e) => Err(e),
            Ok(ps) => match type_of(op.response, doc.components@) {
                Err(e) => Err(e),
                Ok(ret) => match route_of(item.path@, op.parameters@) {
                    Err(e) => Err(e),
                    Ok((f, a)) => Ok(
                        function_layout(
                            op.summary@,
                            snake_case_of(op.operation_id@),
                            ps,
                            ret,
                            method_name(r.method),
                            base + f,
                            a,
                        ),
                    ),
                },
            },
        }
    }
}

/// `function_text`, computed.
pub fn function_source(doc: &Document, base: &String, r: OpRef) -> (res: Result<String, GenError>)
    ensures
        text_result(res) == function_text(*doc, base@, r),
{
    if r.path >= doc.paths.len() {
        return Err(GenError::DocumentMalformed);
    }
    let item = &doc.paths[r.path];
    let op = match item.operation(r.method) {
        Some(op) => op,
        None => {
            return Err(GenError::DocumentMalformed);
        },
    };
    if op.deprecated {
        return Err(GenError::DocumentMalformed);
    }
    let params = match parameter_list(&op.parameters, &doc.components) {
        Ok(p) => p,
        Err(e) => {
            return Err(e);
        },
    };
    let ret = match resolve_type(&op.response, &doc.components) {
        Ok(t) => t,
        Err(e) => {
            return Err(e);
        },
    };
    let (fmt, args) = match route_format(item.path.as_str(), &op.parameters) {
        Ok(p) => p,
        Err(e) => {
            return Err(e);
        },
    };
    let name = snake_case(op.operation_id.as_str());
    let mut target = base.clone();
    target.append(fmt.as_str());
    Ok(
        function_from_parts(
            op.summary.as_str(),
            name.as_str(),
            params.as_str(),
            ret.as_str(),
            method_name_exec(r.method),
            target.as_str(),
            args.as_str(),
        ),
    )
}

/// `function_layout`, computed.
pub fn function_from_parts(
    summary: &str,
    name: &str,
    params: &str,
    ret: &str,
    method: &str,
    target: &str,
    args: &str,
) -> (r: String)
    ensures
        r@ == function_layout(summary@, name@, params@, ret@, method@, target@, args@),
{
    let mut out = String::from_str("    /// ");
    let doc_line = doc_comment_text(summary);
    out.append(doc_line.as_str());
    out.append("\n    pub async fn ");
    out.append(name);
    out.append("(");
    out.append(params);
    out.append(") -> crate::ApiResponseOrError<");
    out.append(ret);
    out.append("> {\n        crate::openai_call(reqwest::Method::");
    out.append(method);
    out.append(", format!(\"");
    out.append(target);
    out.append("\"");
    out.append(args);
    out.append(")).await\n    }\n\n");
    assert(out@ =~= function_layout(summary@, name@, params@, ret@, method@, target@, args@));
    out
}

/// The generated functions of a group, in order.
pub open spec fn functions_text(doc: Document, base: Seq<char>, ops: Seq<OpRef>) -> Result<
    Seq<char>,
    GenError,
> {
    join_results(ops.map_values(|r: OpRef| function_text(doc, base, r)))
}

/// The text of a generated module, once its parts are known.
pub open spec fn module_layout(description: Seq<char>, name: Seq<char>, functions: Seq<char>) -> Seq<
    char,
> {
    "/// "@ + doc_text(description) + "\npub mod "@ + name
        + " {\n    #[allow(unused_imports)]\n    use crate::components::*;\n\n"@ + functions + "}\n\n"@
}

/// The generated module of a group plan `(group index, operations)`.
pub open spec fn module_text(doc: Document, base: Seq<char>, plan: (int, Seq<OpRef>)) -> Result<
    Seq<char>,
    GenError,
> {
    if !(0 <= plan.0 < doc.groups.len()) {
        Err(GenError::DocumentMalformed)
    } else {
        let g = doc.groups@[plan.0];
        match functions_text(doc, base, plan.1) {
            Err(e) => Err(e),
            Ok(fs) => Ok(module_layout(g.description@, snake_case_of(g.id@), fs)),
        }
    }
}

/// The generated modules of a sequence of group plans, in order.
pub open spec fn modules_text(doc: Document, base: Seq<char>, plans: Seq<(int, Seq<OpRef>)>) -> Result<
    Seq<char>,
    GenError,
> {
    join_results(plans.map_values(|p: (int, Seq<OpRef>)| module_text(doc, base, p)))
}

/// `module_text`, computed.
pub fn module_source(doc: &Document, base: &String, plan: &GroupPlan) -> (r: Result<
    String,
    GenError,
>)
    ensures
        text_result(r) == module_text(*doc, base@, plan_view(*plan)),
{
    if plan.group >= doc.groups.len() {
        return Err(GenError::DocumentMalformed);
    }
    let ops = &plan.operations;
    let ghost rs = ops@.map_values(|r: OpRef| function_text(*doc, base@, r));
    assert(plan_view(*plan).1.map_values(|r: OpRef| function_text(*doc, base@, r)) =~= rs);
    let mut fs = String::new();
    let mut k: usize = 0;
    while k < ops.len()
        invariant
            k <= ops.len(),
            rs == ops@.map_values(|r: OpRef| function_text(*doc, base@, r)),
            functions_text(*doc, base@, plan_view(*plan).1) == join_results(rs),
            plan.group < doc.groups.len(),
            join_results(rs.take(k as int)) == Ok::<Seq<char>, GenError>(fs@),
        decreases ops.len() - k,
    {
        proof {
            lemma_join_step(rs, k as int);
        }
        match function_source(doc, base, ops[k]) {
            Ok(f) => {
                fs.append(f.as_str());
            },
            Err(e) => {
                proof {
                    lemma_join_error(rs, k + 1);
                }
                return Err(e);
            },
        }
        k = k + 1;
    }
    assert(rs.take(ops.len() as int) =~= rs);
    let g = &doc.groups[plan.group];
    let name = snake_case(g.id.as_str());
    Ok(module_from_parts(g.description.as_str(), name.as_str(), fs.as_str()))
}

/// `module_layout`, computed.
pub fn module_from_parts(description: &str, name: &str, functions: &str) -> (r: String)
    ensures
        r@ == module_layout(description@, name@, functions@),
{
    let mut out = String::from_str("/// ");
    let text = doc_comment_text(description);
    out.append(text.as_str());
    out.append("\npub mod ");
    out.append(name);
    out.append(" {\n    #[allow(unused_imports)]\n    use crate::components::*;\n\n");
    out.append(functions);
    out.append("}\n\n");
    assert(out@ =~= module_layout(description@, name@, functions@));
    out
}

/// `modules_text` of the views of `plans`, computed.
pub fn modules_source(doc: &Document, base: &String, plans: &Vec<GroupPlan>) -> (r: Result<
    String,
    GenError,
>)
    ensures
        text_result(r) == modules_text(*doc, base@, plans@.map_values(|p: GroupPlan| plan_view(p))),
{
    let ghost views = plans@.map_values(|p: GroupPlan| plan_view(p));
    let ghost rs = views.map_values(|p: (int, Seq<OpRef>)| module_text(*doc, base@, p));
    let mut out = String::new();
    let mut k: usize = 0;
    while k < plans.len()
        invariant
            k <= plans.len(),
            views == plans@.map_values(|p: GroupPlan| plan_view(p)),
            rs == views.map_values(|p: (int, Seq<OpRef>)| module_text(*doc, base@, p)),
            join_results(rs.take(k as int)) == Ok::<Seq<char>, GenError>(out@),
        decreases plans.len() - k,
    {
        proof {
            lemma_join_step(rs, k as int);
        }
        match module_source(doc, base, &plans[k]) {
            Ok(m) => {
                out.append(m.as_str());
            },
            Err(e) => {
                proof {
                    lemma_join_error(rs, k + 1);
                }
                return Err(e);
            },
        }
        k = k + 1;
    }
    assert(rs.take(plans.len() as int) =~= rs);
    Ok(out)
}

/// One declaration per component, in table order. Declarations carry no
/// fields: the dialect does not give every property a type tag, so property
/// types are left to the payload's own decoding.
pub open spec fn component_decls(comps: Seq<Component>) -> Seq<char>
    decreases comps.len(),
{
    if comps.len() == 0 {
        seq![]
    } else {
        component_decls(comps.drop_last())
            + "    #[derive(Deserialize, Serialize, Debug, Clone)]\n    pub struct "@
            + comps.last().name@ + " {}\n\n"@
    }
}

/// The module that declares the components.
pub open spec fn components_text(comps: Seq<Component>) -> Seq<char> {
    "pub mod components {\n    use serde::{Deserialize, Serialize};\n\n"@ + component_decls(comps)
        + "}\n"@
}

/// `components_text`, computed.
pub fn components_source(comps: &Vec<Component>) -> (r: String)
    ensures
        r@ == components_text(comps@),
{
    let mut out = String::from_str("pub mod components {\n    use serde::{Deserialize, Serialize};\n\n");
    let ghost head = out@;
    let mut k: usize = 0;
    while k < comps.len()
        invariant
            k <= comps.len(),
            out@ == head + component_decls(comps@.take(k as int)),
        decreases comps.len() - k,
    {
        assert(comps@.take(k + 1).drop_last() =~= comps@.take(k as int));
        out.append("    #[derive(Deserialize, Serialize, Debug, Clone)]\n    pub struct ");
        out.append(comps[k].name.as_str());
        out.append(" {}\n\n");
        assert(out@ =~= head + component_decls(comps@.take(k + 1)));
        k = k + 1;
    }
    assert(comps@.take(comps.len() as int) =~= comps@);
    out.append("}\n");
    out
}

/// The whole generated client: one module per generated group, in group order,
/// then the components module. Requests go to the document's first server.
pub open spec fn generated(doc: Document) -> Result<Seq<char>, GenError> {
    if doc.servers.len() == 0 {
        Err(GenError::DocumentMalformed)
    } else {
        match modules_text(doc, doc.servers@[0]@, classified(doc)) {
            Err(e) => Err(e),
            Ok(ms) => Ok(ms + components_text(doc.components@)),
        }
    }
}

/// Generates the client's source text from a document.
pub fn generate(doc: &Document) -> (r: Result<String, GenError>)
    ensures
        text_result(r) == generated(*doc),
{
    if doc.servers.len() == 0 {
        return Err(GenError::DocumentMalformed);
    }
    let plans = classify(doc);
    let mut out = match modules_source(doc, &doc.servers[0], &plans) {
        Ok(m) => m,
        Err(e) => {
            return Err(e);
        },
    };
    let comps = components_source(&doc.components);
    out.append(comps.as_str());
    Ok(out)
}

/// Decodes a parsed document and generates the client from it.
pub fn generate_client(y: &Yaml) -> (r: Result<String, GenError>)
    ensures
        !document_valid(*y) ==> r == Err::<String, GenError>(GenError::DocumentMalformed),
        document_valid(*y) ==> exists|d: Document|
            document_matches(*y, d) && text_result(r) == generated(d),
{
    match decode_document(y) {
        Ok(doc) => generate(&doc),
        Err(e) => Err(e),
    }
}

/// Generation is a function of the document alone: two runs on the same
/// document give the same text, or the same error.
pub proof fn law_generation_reproducible(
    doc: Document,
    first: Result<String, GenError>,
    second: Result<String, GenError>,
)
    requires
        text_result(first) == generated(doc),
        text_result(second) == generated(doc),
    ensures
        match (first, second) {
            (Ok(a), Ok(b)) => a@ == b@,
            (Err(a), Err(b)) => a == b,
            _ => false,
        },
{
}

} // verus!
