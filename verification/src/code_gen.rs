//! Generation of JavaScript and TypeScript client modules from a project:
//! one `fetch` function per endpoint, filled into a method template.

use vstd::prelude::*;

use crate::projects::{EndpointView, HeaderView, PersistedEndpoint, PersistedProject};
use crate::text::{
    chars_of, lemma_replace_absent, lemma_replace_mismatch, lemma_replace_prefix, push_all, replace, spec_join,
    spec_replace, string_from_chars,
};

verus! {

/// Default template of a JavaScript client function.
pub const JS_METHOD_TEMPLATE: &'static str = "
export async function [NAME]([BODY_VAR]) {
  const response = await fetch(\"[URL]\", {
    headers: { [HEADERS] },[BODY]
    method: \"[METHOD]\",
  })

  return await response.[RESPONSE_FUNC]()
}
";

/// Default template of a TypeScript client function.
pub const TS_METHOD_TEMPLATE: &'static str = "
export async function [NAME][RETURN_GENERIC]([BODY_VAR]): Promise<[RETURN_TYPE]> {
  const response = await fetch(\"[URL]\", {
    headers: { [HEADERS] },[BODY]
    method: \"[METHOD]\",
  })

  return await response.[RESPONSE_FUNC]() [RETURN_GENERIC_CAST]
}
";

/// The language of a generated client module.
#[derive(Debug, Clone, Copy, PartialEq, Eq)]
pub enum WebType {
    JavaScript,
    TypeScript,
}

/// The template a client function is generated from when the user has not
/// stored one of their own.
pub fn default_method_template(web_type: WebType) -> (template: &'static str)
    ensures
        template@ == (match web_type {
            WebType::JavaScript => JS_METHOD_TEMPLATE@,
            WebType::TypeScript => TS_METHOD_TEMPLATE@,
        }),
{
    match web_type {
        WebType::JavaScript => JS_METHOD_TEMPLATE,
        WebType::TypeScript => TS_METHOD_TEMPLATE,
    }
}

/// The file, in the code templates directory, that holds the user's template.
pub fn template_file_name(web_type: WebType) -> (name: &'static str)
    ensures
        name@ == (match web_type {
            WebType::JavaScript => "javascript_method_template.txt"@,
            WebType::TypeScript => "typescript_method_template.txt"@,
        }),
{
    match web_type {
        WebType::JavaScript => "javascript_method_template.txt",
        WebType::TypeScript => "typescript_method_template.txt",
    }
}

/// File extension of a generated module.
pub open spec fn spec_extension(web_type: WebType) -> Seq<char> {
    match web_type {
        WebType::JavaScript => "js"@,
        WebType::TypeScript => "ts"@,
    }
}

/// Value of the first header named exactly `content-type`, or nothing.
pub open spec fn spec_content_type(headers: Seq<HeaderView>) -> Seq<char>
    decreases headers.len(),
{
    if headers.len() == 0 {
        seq![]
    } else if headers[0].0 == "content-type"@ {
        headers[0].1
    } else {
        spec_content_type(headers.drop_first())
    }
}

/// A header written as a JavaScript object entry: `"name": "value"`.
pub open spec fn spec_header_entry(h: HeaderView) -> Seq<char> {
    "\""@ + h.0 + "\": \""@ + h.1 + "\""@
}

/// The object entries of all headers, separated by `, `.
pub open spec fn spec_headers_text(headers: Seq<HeaderView>) -> Seq<char> {
    spec_join(Seq::new(headers.len(), |i: int| spec_header_entry(headers[i])), ", "@)
}

/// The code of the client function of one endpoint: the template with its
/// placeholders replaced, one after the other.
pub open spec fn spec_method_code(template: Seq<char>, e: EndpointView, web_type: WebType) -> Seq<char> {
    let json = spec_content_type(e.headers) == "application/json"@;
    let has_body = e.body.len() > 0;
    let return_generic = if json { "<T>"@ } else { seq![] };
    let return_type = if json { "T"@ } else { "string"@ };
    let response_func = if json { "json"@ } else { "text"@ };
    let return_generic_cast = if json { "as T"@ } else { seq![] };
    let body_var = if !has_body {
        seq![]
    } else {
        match web_type {
            WebType::JavaScript => "body"@,
            WebType::TypeScript => "body: BodyInit"@,
        }
    };
    let body = if has_body { "\n    body,"@ } else { seq![] };
    let t1 = spec_replace(template, "[NAME]"@, spec_replace(e.name, " "@, "_"@));
    let t2 = spec_replace(t1, "[RETURN_GENERIC]"@, return_generic);
    let t3 = spec_replace(t2, "[BODY_VAR]"@, body_var);
    let t4 = spec_replace(t3, "[RETURN_TYPE]"@, return_type);
    let t5 = spec_replace(t4, "[URL]"@, e.url);
    let t6 = spec_replace(t5, "[HEADERS]"@, spec_headers_text(e.headers));
    let t7 = spec_replace(t6, "[BODY]"@, body);
    let t8 = spec_replace(t7, "[METHOD]"@, e.method);
    let t9 = spec_replace(t8, "[RESPONSE_FUNC]"@, response_func);
    spec_replace(t9, "[RETURN_GENERIC_CAST]"@, return_generic_cast)
}

/// A placeholder other than `[BODY]` leaves a template whose only `[`
/// opens `[BODY]` as it is.
proof fn lemma_other_placeholder(prefix: Seq<char>, suffix: Seq<char>, pat: Seq<char>, rep: Seq<char>, i: int)
    requires
        !prefix.contains('['),
        !suffix.contains('['),
        pat.len() > 0,
        pat[0] == '[',
        0 <= i < 6,
        i < pat.len(),
        "[BODY]"@[i] != pat[i],
    ensures
        spec_replace(prefix + "[BODY]"@ + suffix, pat, rep) == prefix + "[BODY]"@ + suffix,
{
    reveal_strlit("[BODY]");
    let w = "[BODY]"@ + suffix;
    assert(prefix + "[BODY]"@ + suffix =~= prefix + w);
    assert(!w.skip(1).contains('[')) by {
        if w.skip(1).contains('[') {
            let j = choose|j: int| 0 <= j < w.skip(1).len() && w.skip(1)[j] == '[';
            assert(w[j + 1] == '[');
            if j + 1 >= 6 {
                assert(suffix[j + 1 - 6] == '[');
            }
        }
    }
    assert(w[i] == "[BODY]"@[i]);
    lemma_replace_mismatch(w, pat, rep, i);
    lemma_replace_prefix(prefix, w, pat, rep);
}

/// In a template whose only `[` opens a `[BODY]` placeholder, the
/// generated code is the template with `[BODY]` replaced by a line that
/// passes the body to `fetch` when the endpoint has a body, and removed
/// when it has none.
pub proof fn lemma_body_placeholder(prefix: Seq<char>, suffix: Seq<char>, e: EndpointView, web_type: WebType)
    requires
        !prefix.contains('['),
        !suffix.contains('['),
    ensures
        spec_method_code(prefix + "[BODY]"@ + suffix, e, web_type) == prefix + (if e.body.len() > 0 {
            "\n    body,"@
        } else {
            seq![]
        }) + suffix,
{
    reveal_strlit("[NAME]");
    reveal_strlit("[RETURN_GENERIC]");
    reveal_strlit("[BODY_VAR]");
    reveal_strlit("[RETURN_TYPE]");
    reveal_strlit("[URL]");
    reveal_strlit("[HEADERS]");
    reveal_strlit("[BODY]");
    reveal_strlit("[METHOD]");
    reveal_strlit("[RESPONSE_FUNC]");
    reveal_strlit("[RETURN_GENERIC_CAST]");
    reveal_strlit("\n    body,");
    let json = spec_content_type(e.headers) == "application/json"@;
    let has_body = e.body.len() > 0;
    let return_generic = if json { "<T>"@ } else { seq![] };
    let return_type = if json { "T"@ } else { "string"@ };
    let response_func = if json { "json"@ } else { "text"@ };
    let return_generic_cast = if json { "as T"@ } else { seq![] };
    let body_var = if !has_body {
        seq![]
    } else {
        match web_type {
            WebType::JavaScript => "body"@,
            WebType::TypeScript => "body: BodyInit"@,
        }
    };
    let body_line = if has_body { "\n    body,"@ } else { seq![] };
    let t0 = prefix + "[BODY]"@ + suffix;
    lemma_other_placeholder(prefix, suffix, "[NAME]"@, spec_replace(e.name, " "@, "_"@), 1);
    lemma_other_placeholder(prefix, suffix, "[RETURN_GENERIC]"@, return_generic, 1);
    lemma_other_placeholder(prefix, suffix, "[BODY_VAR]"@, body_var, 5);
    lemma_other_placeholder(prefix, suffix, "[RETURN_TYPE]"@, return_type, 1);
    lemma_other_placeholder(prefix, suffix, "[URL]"@, e.url, 1);
    lemma_other_placeholder(prefix, suffix, "[HEADERS]"@, spec_headers_text(e.headers), 1);
    let w = "[BODY]"@ + suffix;
    assert(t0 =~= prefix + w);
    lemma_replace_prefix(prefix, w, "[BODY]"@, body_line);
    assert(w.take(6) =~= "[BODY]"@);
    assert(w.skip(6) =~= suffix);
    lemma_replace_absent(suffix, "[BODY]"@, body_line);
    let t7 = prefix + body_line + suffix;
    assert(spec_replace(t0, "[BODY]"@, body_line) == t7) by {
        assert(prefix + (body_line + suffix) =~= t7);
    }
    assert(!t7.contains('[')) by {
        if t7.contains('[') {
            let j = choose|j: int| 0 <= j < t7.len() && t7[j] == '[';
            if j < prefix.len() {
                assert(prefix[j] == '[');
            } else if j < prefix.len() + body_line.len() {
                assert(body_line[j - prefix.len()] == '[');
            } else {
                assert(suffix[j - prefix.len() - body_line.len()] == '[');
            }
        }
    }
    lemma_replace_absent(t7, "[METHOD]"@, e.method);
    lemma_replace_absent(t7, "[RESPONSE_FUNC]"@, response_func);
    lemma_replace_absent(t7, "[RETURN_GENERIC_CAST]"@, return_generic_cast);
}

/// The whole module: the functions of all endpoints, in order.
pub open spec fn spec_module(template: Seq<char>, endpoints: Seq<EndpointView>, web_type: WebType) -> Seq<char>
    decreases endpoints.len(),
{
    if endpoints.len() == 0 {
        seq![]
    } else {
        spec_module(template, endpoints.drop_last(), web_type) + spec_method_code(
            template,
            endpoints.last(),
            web_type,
        )
    }
}

/// A generated module and the name of its file in the documents directory.
pub struct GeneratedCode {
    pub file_name: String,
    pub contents: String,
}

/// Value of the first `content-type` header.
fn content_type_of(e: &PersistedEndpoint) -> (value: Vec<char>)
    ensures
        value@ == spec_content_type(e@.headers),
{
    let key = String::from_str("content-type");
    let mut i: usize = 0;
    let ghost hs = e@.headers;
    proof {
        assert(hs.skip(0) =~= hs);
    }
    while i < e.headers.len()
        invariant
            hs == e@.headers,
            key@ == "content-type"@,
            i <= hs.len(),
            spec_content_type(hs) == spec_content_type(hs.skip(i as int)),
        decreases hs.len() - i,
    {
        proof {
            assert(hs.skip(i as int).drop_first() =~= hs.skip(i + 1));
            assert(hs.skip(i as int)[0] == hs[i as int]);
            assert(hs[i as int] == (e.headers@[i as int].name@, e.headers@[i as int].value@));
        }
        if e.headers[i].name == key {
            proof {
                assert(key@ == "content-type"@);
                assert(hs.skip(i as int)[0].0 == "content-type"@);
                assert(spec_content_type(hs.skip(i as int)) == hs[i as int].1);
            }
            return chars_of(e.headers[i].value.as_str());
        }
        proof {
            assert(hs.skip(i as int)[0].0 != "content-type"@);
            assert(spec_content_type(hs.skip(i as int)) == spec_content_type(hs.skip(i as int).drop_first()));
        }
        i = i + 1;
    }
    proof {
        assert(hs.skip(i as int).len() == 0);
    }
    Vec::new()
}

/// The header entries of an endpoint, separated by `, `.
fn headers_text(e: &PersistedEndpoint) -> (text: Vec<char>)
    ensures
        text@ == spec_headers_text(e@.headers),
{
    let ghost hs = e@.headers;
    let ghost entries = Seq::new(hs.len(), |i: int| spec_header_entry(hs[i]));
    let quote = chars_of("\"");
    let middle = chars_of("\": \"");
    let sep = chars_of(", ");
    let mut text: Vec<char> = Vec::new();
    let mut i: usize = 0;
    while i < e.headers.len()
        invariant
            hs == e@.headers,
            entries == Seq::new(hs.len(), |i: int| spec_header_entry(hs[i])),
            quote@ == "\""@,
            middle@ == "\": \""@,
            sep@ == ", "@,
            i <= hs.len(),
            text@ == spec_join(entries.take(i as int), ", "@),
        decreases hs.len() - i,
    {
        let ghost before = text@;
        if i > 0 {
            push_all(&mut text, sep.as_slice());
        }
        push_all(&mut text, quote.as_slice());
        let name = chars_of(e.headers[i].name.as_str());
        push_all(&mut text, name.as_slice());
        push_all(&mut text, middle.as_slice());
        let value = chars_of(e.headers[i].value.as_str());
        push_all(&mut text, value.as_slice());
        push_all(&mut text, quote.as_slice());
        i = i + 1;
        proof {
            let t = entries.take(i as int);
            assert(t.drop_last() =~= entries.take(i - 1));
            assert(t.last() == spec_header_entry(hs[i - 1]));
            if i == 1 {
                assert(before.len() == 0);
                assert(text@ =~= spec_header_entry(hs[0]));
            } else {
                assert(text@ =~= before + ", "@ + spec_header_entry(hs[i - 1]));
            }
        }
    }
    proof {
        assert(entries.take(hs.len() as int) =~= entries);
    }
    text
}

/// `s` with the literal placeholder `pat` replaced by `rep`.
fn replace_placeholder(s: Vec<char>, pat: &str, rep: &[char]) -> (out: Vec<char>)
    requires
        pat@.len() > 0,
    ensures
        out@ == spec_replace(s@, pat@, rep@),
{
    let p = chars_of(pat);
    replace(s.as_slice(), p.as_slice(), rep)
}

/// The code of the client function of one endpoint.
fn method_code(template: &[char], e: &PersistedEndpoint, web_type: WebType) -> (code: Vec<char>)
    ensures
        code@ == spec_method_code(template@, e@, web_type),
{
    proof {
        reveal_strlit("[NAME]");
        reveal_strlit("[RETURN_GENERIC]");
        reveal_strlit("[BODY_VAR]");
        reveal_strlit("[RETURN_TYPE]");
        reveal_strlit("[URL]");
        reveal_strlit("[HEADERS]");
        reveal_strlit("[BODY]");
        reveal_strlit("[METHOD]");
        reveal_strlit("[RESPONSE_FUNC]");
        reveal_strlit("[RETURN_GENERIC_CAST]");
        reveal_strlit(" ");
    }
    let content_type = content_type_of(e);
    let json_marker = chars_of("application/json");
    let json = content_type.len() == json_marker.len() && crate::text::matches_at(
        content_type.as_slice(),
        json_marker.as_slice(),
        0,
    );
    proof {
        if content_type@.len() == json_marker@.len() {
            assert(content_type@.subrange(0, json_marker@.len() as int) =~= content_type@);
        }
    }
    let has_body = e.body.as_str().unicode_len() > 0;
    let return_generic = if json { chars_of("<T>") } else { Vec::new() };
    let return_type = if json { chars_of("T") } else { chars_of("string") };
    let response_func = if json { chars_of("json") } else { chars_of("text") };
    let return_generic_cast = if json { chars_of("as T") } else { Vec::new() };
    let body_var = if !has_body {
        Vec::new()
    } else {
        match web_type {
            WebType::JavaScript => chars_of("body"),
            WebType::TypeScript => chars_of("body: BodyInit"),
        }
    };
    let body = if has_body { chars_of("\n    body,") } else { Vec::new() };
    let name = chars_of(e.name.as_str());
    let space = chars_of(" ");
    let underscore = chars_of("_");
    let function_name = replace(name.as_slice(), space.as_slice(), underscore.as_slice());
    let url = chars_of(e.url.as_str());
    let headers = headers_text(e);
    let method = chars_of(e.method.as_str());
    let mut t: Vec<char> = Vec::new();
    push_all(&mut t, template);
    let t = replace_placeholder(t, "[NAME]", function_name.as_slice());
    let t = replace_placeholder(t, "[RETURN_GENERIC]", return_generic.as_slice());
    let t = replace_placeholder(t, "[BODY_VAR]", body_var.as_slice());
    let t = replace_placeholder(t, "[RETURN_TYPE]", return_type.as_slice());
    let t = replace_placeholder(t, "[URL]", url.as_slice());
    let t = replace_placeholder(t, "[HEADERS]", headers.as_slice());
    let t = replace_placeholder(t, "[BODY]", body.as_slice());
    let t = replace_placeholder(t, "[METHOD]", method.as_slice());
    let t = replace_placeholder(t, "[RESPONSE_FUNC]", response_func.as_slice());
    let t = replace_placeholder(t, "[RETURN_GENERIC_CAST]", return_generic_cast.as_slice());
    proof {
        assert(t@ == spec_method_code(template@, e@, web_type));
    }
    t
}

/// The file name of a generated module: the project name with spaces
/// replaced by underscores, and the extension of the language.
pub open spec fn spec_module_file_name(project_name: Seq<char>, web_type: WebType) -> Seq<char> {
    spec_replace(project_name, " "@, "_"@) + "."@ + spec_extension(web_type)
}

/// Generates the client module of a project from the function template
/// `method_template`: its file name and its code.
pub fn generate_web(project: &PersistedProject, web_type: WebType, method_template: &str) -> (code: GeneratedCode)
    ensures
        code.contents@ == spec_module(method_template@, project@.endpoints, web_type),
        code.file_name@ == spec_module_file_name(project@.name, web_type),
{
    let template = chars_of(method_template);
    let ghost es = project@.endpoints;
    let mut module: Vec<char> = Vec::new();
    let mut i: usize = 0;
    while i < project.endpoints.len()
        invariant
            es == project@.endpoints,
            template@ == method_template@,
            i <= es.len(),
            module@ == spec_module(method_template@, es.take(i as int), web_type),
        decreases es.len() - i,
    {
        let code = method_code(template.as_slice(), &project.endpoints[i], web_type);
        push_all(&mut module, code.as_slice());
        i = i + 1;
        proof {
            let t = es.take(i as int);
            assert(t.drop_last() =~= es.take(i - 1));
            assert(t.last() == es[i - 1]);
        }
    }
    proof {
        assert(es.take(es.len() as int) =~= es);
    }
    proof {
        reveal_strlit(" ");
    }
    let name = chars_of(project.name.as_str());
    let space = chars_of(" ");
    let underscore = chars_of("_");
    let mut file_name = replace(name.as_slice(), space.as_slice(), underscore.as_slice());
    let dot = chars_of(".");
    push_all(&mut file_name, dot.as_slice());
    let extension = match web_type {
        WebType::JavaScript => chars_of("js"),
        WebType::TypeScript => chars_of("ts"),
    };
    push_all(&mut file_name, extension.as_slice());
    proof {
        reveal_strlit(" ");
    }
    GeneratedCode { file_name: string_from_chars(file_name.as_slice()), contents: string_from_chars(module.as_slice()) }
}

} // verus!
