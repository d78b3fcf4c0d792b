//! What holds of every rewrite, proved from the definitions of the other
//! modules.
use crate::args::{facility_of, LazyArgsView, MapArgsView, TransformView};
use crate::decl::{original_type, FnDeclView};
use crate::diag::{anchor_of, message_of, published_name, Anchor, DiagnosticView};
use crate::emit::{
    cached_type, coherent, emit_spec, storage_name, value_production, FragmentView, ReplacementView,
    StorageView,
};
use crate::expand::{expand_spec, lazy_map_spec, rewrite_spec};
use crate::grammar::{lemma_map_args_are_well_formed, map_args_spec, well_formed};
use crate::render::{body_text, cell_path, function_text};
use crate::resolve::DiscoveryView;
use crate::syntax::{lexed, parsed_function};
use crate::text::{spaced, underscored, unraw};
use crate::validate::validate_spec;
use vstd::prelude::*;

verus! {

/// A function that declares a parameter is never rewritten. Whatever its other
/// parts, the mode, the switch for `async` and the outcome of the search for
/// the facility, the rewrite fails with the diagnostic for parameters, which
/// shows the fixed message and points at the parameter list.
pub proof fn law_parameters_are_rejected(
    args: LazyArgsView,
    decl: FnDeclView,
    async_support: bool,
    discovery: DiscoveryView,
)
    requires
        decl.parameters > 0,
    ensures
        expand_spec(args, decl, async_support, discovery) == Err::<FragmentView, DiagnosticView>(
            DiagnosticView::UnsupportedParameters,
        ),
        anchor_of(DiagnosticView::UnsupportedParameters) == Anchor::ParameterList,
        message_of(DiagnosticView::UnsupportedParameters)
            == "Arguments are not supported on lazy functions"@,
{
}

/// An `async` function without parameters is refused while support for
/// `async` is switched off, with the fixed message and pointing at the `async`
/// marker. With support switched on, and the facility found, the same function
/// is rewritten, and both the replacement and the cell are the `async` ones.
pub proof fn law_async_is_gated(args: LazyArgsView, decl: FnDeclView, discovery: DiscoveryView)
    requires
        decl.is_async,
        decl.parameters == 0,
    ensures
        expand_spec(args, decl, false, discovery) == Err::<FragmentView, DiagnosticView>(
            DiagnosticView::UnsupportedAsync,
        ),
        anchor_of(DiagnosticView::UnsupportedAsync) == Anchor::AsyncMarker,
        message_of(DiagnosticView::UnsupportedAsync)
            == "Async functions are only supported when the async feature is enabled"@,
        discovery != DiscoveryView::NotFound ==> {
            let outcome = expand_spec(args, decl, true, discovery);
            &&& outcome is Ok
            &&& outcome->Ok_0.function.is_async
            &&& outcome->Ok_0.storage.is_async
        },
{
}

/// A function that is not `async` and has no parameters is rewritten whether
/// or not support for `async` is switched on, and to the same fragment.
pub proof fn law_switch_leaves_sync_alone(
    args: LazyArgsView,
    decl: FnDeclView,
    discovery: DiscoveryView,
)
    requires
        !decl.is_async,
    ensures
        expand_spec(args, decl, false, discovery) == expand_spec(args, decl, true, discovery),
{
}

/// What a replacement's declaration begins with: the attributes, the
/// visibility, the keywords and the name.
pub open spec fn function_head(function: ReplacementView) -> Seq<char> {
    spaced(function.attrs) + function.vis + (if function.is_async {
        " async fn "@
    } else {
        " fn "@
    }) + function.name
}

/// In map mode the cell holds, and the replacement returns a reference to, the
/// type that the attribute names, not the type that the function declares: in
/// the text of the replacement that type follows `-> & 'static`. The
/// transform is the closure as written, or a closure that calls the path on
/// the one computed value.
pub proof fn law_map_mode_caches_target_type(
    map: MapArgsView,
    decl: FnDeclView,
    facility: Seq<char>,
)
    ensures
        ({
            let fragment = emit_spec(LazyArgsView::Mapped(map), decl, facility);
            &&& fragment.storage.cached_type == map.ty
            &&& fragment.function.cached_type == map.ty
            &&& function_text(fragment.function) == function_head(fragment.function)
                + " () -> & 'static "@ + map.ty + " { "@ + body_text(fragment.function) + " }"@
            &&& match map.transform {
                TransformView::Closure(closure) => fragment.function.transform == closure,
                TransformView::Path(path) => fragment.function.transform
                    == "|__lazy_value| "@ + path + " (__lazy_value)"@,
            }
        }),
{
}

/// Outside map mode the cached type is the type that the function returns,
/// and the transform hands the computed value on unchanged.
pub proof fn law_plain_modes_cache_the_result(
    args: LazyArgsView,
    decl: FnDeclView,
    facility: Seq<char>,
)
    requires
        !(args is Mapped),
    ensures
        emit_spec(args, decl, facility).function.cached_type == emit_spec(
            args,
            decl,
            facility,
        ).function.original_type,
        emit_spec(args, decl, facility).function.transform == "|__lazy_value| __lazy_value"@,
{
}

/// Inside the facility the generated code names the facility's crate by the
/// facility's own name, written as an identifier; elsewhere by the name that
/// the facility is imported under. Nothing else in the fragment depends on
/// where the rewrite runs.
pub proof fn law_facility_naming(
    args: LazyArgsView,
    decl: FnDeclView,
    async_support: bool,
    alias: Seq<char>,
)
    requires
        validate_spec(decl, async_support) is Ok,
    ensures
        ({
            let inside = expand_spec(args, decl, async_support, DiscoveryView::Itself);
            let outside = expand_spec(args, decl, async_support, DiscoveryView::Alias(alias));
            &&& inside is Ok
            &&& outside is Ok
            &&& inside->Ok_0.storage.facility == underscored(published_name(facility_of(args)))
            &&& outside->Ok_0.storage.facility == alias
            &&& inside->Ok_0.function == outside->Ok_0.function
            &&& inside->Ok_0.storage == (StorageView {
                facility: inside->Ok_0.storage.facility,
                ..outside->Ok_0.storage
            })
        }),
{
}

/// The path of the cell type begins with the name of the facility's crate.
pub proof fn law_cell_path_starts_with_facility(facility: Seq<char>, is_async: bool)
    ensures
        facility.is_prefix_of(cell_path(facility, is_async)),
{
    let tail = if is_async {
        " :: __internal :: async_once_cell :: OnceCell"@
    } else {
        " :: __internal :: once_cell :: sync :: OnceCell"@
    };
    assert(cell_path(facility, is_async) == facility + tail);
    assert((facility + tail).subrange(0, facility.len() as int) =~= facility);
}

/// The facility that is not found stops the rewrite of a function of valid
/// shape: nothing is generated, and the diagnostic names the missing package
/// and points at the function's name.
pub proof fn law_missing_facility(args: LazyArgsView, decl: FnDeclView, async_support: bool)
    requires
        validate_spec(decl, async_support) is Ok,
    ensures
        expand_spec(args, decl, async_support, DiscoveryView::NotFound) == Err::<
            FragmentView,
            DiagnosticView,
        >(DiagnosticView::MissingFacility(facility_of(args))),
        anchor_of(DiagnosticView::MissingFacility(facility_of(args))) == Anchor::FunctionName,
        message_of(DiagnosticView::MissingFacility(facility_of(args))) == "Could not find `"@
            + published_name(facility_of(args)) + "` crate in your `Cargo.toml`"@,
{
}

/// Two functions share a cell only if they share a name: the cell's name
/// determines the function's, up to the mark of a raw identifier.
pub proof fn law_storage_names_are_distinct(first: Seq<char>, second: Seq<char>)
    requires
        storage_name(first) == storage_name(second),
    ensures
        unraw(first) == unraw(second),
{
    let prefix = "__lazy_static_"@;
    let a = unraw(first);
    let b = unraw(second);
    assert((prefix + a).len() == (prefix + b).len());
    assert(a.len() == b.len());
    assert forall|i: int| 0 <= i < a.len() implies a[i] == b[i] by {
        assert((prefix + a)[prefix.len() + i] == a[i]);
        assert((prefix + b)[prefix.len() + i] == b[i]);
    }
    assert(a =~= b);
}

/// A rewrite that succeeds keeps the function's name, visibility, attributes,
/// `async` marker and statements, and reads the cell that it declares.
pub proof fn law_rewrite_preserves_shape(
    args: LazyArgsView,
    decl: FnDeclView,
    async_support: bool,
    discovery: DiscoveryView,
)
    requires
        expand_spec(args, decl, async_support, discovery) is Ok,
    ensures
        ({
            let fragment = expand_spec(args, decl, async_support, discovery)->Ok_0;
            &&& decl.parameters == 0
            &&& decl.is_async ==> async_support
            &&& fragment.function.name == decl.name
            &&& fragment.function.vis == decl.vis
            &&& fragment.function.attrs == decl.attrs
            &&& fragment.function.is_async == decl.is_async
            &&& fragment.function.stmts == decl.body
            &&& fragment.function.storage == fragment.storage.name
            &&& fragment.storage.name == storage_name(decl.name)
            &&& fragment.storage.is_async == decl.is_async
            &&& fragment.storage.cached_type == fragment.function.cached_type
            &&& fragment.storage.cached_type == cached_type(args, decl)
            &&& fragment.function.transform == value_production(args)
        }),
{
}

/// An item that the parser does not read as a function is not rewritten: the
/// outcome is the parser's error with the parser's message, whatever the mode,
/// the switch for `async` and the outcome of the search for the facility.
pub proof fn law_syntax_error_is_handed_on(
    args: LazyArgsView,
    item: Seq<char>,
    async_support: bool,
    discovery: DiscoveryView,
)
    ensures
        parsed_function(item) matches Err(message) ==> rewrite_spec(
            args,
            item,
            async_support,
            discovery,
        ) == Err::<FragmentView, DiagnosticView>(DiagnosticView::MalformedFunction(message)),
{
}

/// An item that the parser reads as a function with a parameter is not
/// rewritten by any attribute: the outcome is the diagnostic for parameters
/// and nothing else. The map attribute does not lift the rule.
pub proof fn law_attributes_reject_parameters(
    args: LazyArgsView,
    attr: Seq<char>,
    item: Seq<char>,
    async_support: bool,
    discovery: DiscoveryView,
)
    ensures
        parsed_function(item) is Ok && parsed_function(item)->Ok_0.parameters > 0 ==> {
            &&& rewrite_spec(args, item, async_support, discovery) == Err::<
                FragmentView,
                DiagnosticView,
            >(DiagnosticView::UnsupportedParameters)
            &&& map_args_spec(attr) is Ok ==> lazy_map_spec(attr, item, async_support, discovery)
                == Err::<FragmentView, DiagnosticView>(DiagnosticView::UnsupportedParameters)
        },
{
}

/// An item that the parser reads as an `async` function without parameters is
/// refused by every attribute while support for `async` is switched off. With
/// support switched on and the facility found it is rewritten, to an `async`
/// function of the same name that reads the `async` cell.
pub proof fn law_attributes_gate_async(
    args: LazyArgsView,
    item: Seq<char>,
    discovery: DiscoveryView,
)
    ensures
        parsed_function(item) is Ok && parsed_function(item)->Ok_0.is_async && parsed_function(
            item,
        )->Ok_0.parameters == 0 ==> {
            &&& rewrite_spec(args, item, false, discovery) == Err::<FragmentView, DiagnosticView>(
                DiagnosticView::UnsupportedAsync,
            )
            &&& discovery != DiscoveryView::NotFound ==> {
                let outcome = rewrite_spec(args, item, true, discovery);
                &&& outcome is Ok
                &&& outcome->Ok_0.function.is_async
                &&& outcome->Ok_0.storage.is_async
                &&& outcome->Ok_0.function.name == parsed_function(item)->Ok_0.name
            }
        },
{
}

/// Whatever an attribute generates keeps what the parser read of the item: the
/// replacement has the item's name, visibility, attributes and statements, and
/// is `async` exactly if the item is.
pub proof fn law_attributes_keep_the_item(
    args: LazyArgsView,
    item: Seq<char>,
    async_support: bool,
    discovery: DiscoveryView,
)
    ensures
        rewrite_spec(args, item, async_support, discovery) matches Ok(fragment) ==> {
            &&& parsed_function(item) is Ok
            &&& fragment.function.name == parsed_function(item)->Ok_0.name
            &&& fragment.function.vis == parsed_function(item)->Ok_0.vis
            &&& fragment.function.attrs == parsed_function(item)->Ok_0.attrs
            &&& fragment.function.stmts == parsed_function(item)->Ok_0.body
            &&& fragment.function.is_async == parsed_function(item)->Ok_0.is_async
            &&& fragment.function.original_type == original_type(parsed_function(item)->Ok_0)
            &&& fragment.function.transform == value_production(args)
            &&& fragment.storage.name == storage_name(parsed_function(item)->Ok_0.name)
            &&& coherent(fragment)
        },
{
}

/// One accepted item, rewritten inside the facility and where the facility is
/// imported under an alias, gives two fragments that differ in the name of the
/// facility's crate and in nothing else. Where the alias is the facility's own
/// name the two are equal.
pub proof fn law_attributes_name_the_facility(
    args: LazyArgsView,
    item: Seq<char>,
    async_support: bool,
    alias: Seq<char>,
)
    ensures
        parsed_function(item) is Ok && validate_spec(parsed_function(item)->Ok_0, async_support)
            is Ok ==> {
            let inside = rewrite_spec(args, item, async_support, DiscoveryView::Itself);
            let outside = rewrite_spec(args, item, async_support, DiscoveryView::Alias(alias));
            &&& inside is Ok
            &&& outside is Ok
            &&& inside->Ok_0.storage.facility == underscored(published_name(facility_of(args)))
            &&& outside->Ok_0.storage.facility == alias
            &&& inside->Ok_0.function == outside->Ok_0.function
            &&& inside->Ok_0.storage == (StorageView {
                facility: inside->Ok_0.storage.facility,
                ..outside->Ok_0.storage
            })
            &&& alias == underscored(published_name(facility_of(args))) ==> inside == outside
        },
{
}

/// Arguments of the map attribute that do not fit the grammar stop the
/// rewrite, whatever the item holds: the outcome is the diagnostic for the
/// arguments, which says what was expected, and nothing is generated.
pub proof fn law_malformed_arguments_stop_the_map_attribute(
    attr: Seq<char>,
    item: Seq<char>,
    async_support: bool,
    discovery: DiscoveryView,
)
    ensures
        map_args_spec(attr) matches Err(diagnostic) ==> {
            &&& lazy_map_spec(attr, item, async_support, discovery) == Err::<
                FragmentView,
                DiagnosticView,
            >(diagnostic)
            &&& diagnostic is MalformedArguments
            &&& anchor_of(diagnostic) == Anchor::Arguments
        },
        lexed(attr) is None ==> map_args_spec(attr) is Err,
{
}

/// Where the arguments of the map attribute fit the grammar and the item is
/// accepted, the cell holds the type that the arguments name, the replacement
/// returns a reference to it, and the transform is the one read from the
/// arguments. The item's declared return type is the type of the value that
/// the transform takes. The arguments that were read hold what the grammar
/// asks for.
pub proof fn law_map_attribute_caches_the_target_type(
    attr: Seq<char>,
    item: Seq<char>,
    async_support: bool,
    discovery: DiscoveryView,
)
    ensures
        map_args_spec(attr) is Ok && parsed_function(item) is Ok ==> {
            let map = map_args_spec(attr)->Ok_0;
            let decl = parsed_function(item)->Ok_0;
            let outcome = lazy_map_spec(attr, item, async_support, discovery);
            &&& well_formed(map)
            &&& outcome == expand_spec(LazyArgsView::Mapped(map), decl, async_support, discovery)
            &&& validate_spec(decl, async_support) is Ok && discovery != DiscoveryView::NotFound
                ==> outcome is Ok
            &&& outcome is Ok ==> {
                &&& outcome->Ok_0.storage.cached_type == map.ty
                &&& outcome->Ok_0.function.cached_type == map.ty
                &&& outcome->Ok_0.function.original_type == original_type(decl)
                &&& outcome->Ok_0.function.transform == value_production(
                    LazyArgsView::Mapped(map),
                )
                &&& outcome->Ok_0.function.name == decl.name
                &&& outcome->Ok_0.function.is_async == decl.is_async
            }
        },
{
    if lexed(attr) is Some {
        lemma_map_args_are_well_formed(lexed(attr)->Some_0);
    }
}

} // verus!
