//! Where the anchors of a run are on the in-memory server once it is opened.
use vstd::prelude::*;

use crate::anchor::{
    component_of, descend_any_run, descend_run, make_directory_call, make_directory_run,
    make_within_run, named_child_run, open_anchors_run, private_child_run, run_children_run,
    run_directory_run, run_name, run_parent_run, AnchorKind,
};
use crate::contract::{split_path, OpenRunIntent, RunId};
use crate::fake::idle::{a_handle_is_told, a_quiet_fake_answers, idle, plain_from};
use crate::fake::model::{handle_of, step, ServerModel};
use crate::fake::{FakeTransport, FakeWorld};
use crate::identity::{pin_run, PinnedObjectView};
use crate::layout;
use crate::storage::NfsUserspaceConfigView;
use crate::transport::{
    no_values, root_answer, root_call, valid_component, AttrMask, AttrValuesView, CreateType,
    Deadline, Fsid, Nfs4Type, OpView, RawTransport, ReplyView,
};

use super::ground::{
    a_child_exists, a_descent_finds_the_child, a_lookup_is_answered, a_pin_is_adopted,
    a_walk_follows, attributes_are_answered, followed, nothing_is_refused, pins,
};
use super::names::{
    a_create_step_makes, a_directory_made_is_growth, a_handle_is_put_again, bound_in,
    directory_made, grown, growth_adds_up, growth_keeps_a_name, same_but_names,
};

verus! {

/// Whether a fake with no fault pending holds everything on one file system, with room
/// for `more` objects.
pub open spec fn stands_alone(world: FakeWorld, home: Fsid, more: nat) -> bool {
    &&& idle(world)
    &&& world.server.objects.len() + more < u64::MAX
    &&& world.server.fsid == home
    &&& forall|i: int|
        0 <= i < world.server.objects.len() ==> (#[trigger] world.server.objects[i]).identity.fsid
            == home
}

/// Whether `pin` is of the directory that `name` is bound to in `parent`.
pub open spec fn pins_child(
    world: FakeWorld,
    pin: PinnedObjectView,
    parent: nat,
    name: Seq<u8>,
) -> bool {
    &&& parent < world.server.objects.len()
    &&& bound_in(world.server, parent, name) matches Some(child) && pins(world, pin, child)
    &&& pin.kind == Nfs4Type::Directory
}

proof fn an_object_is_pinned(world: FakeWorld, index: nat, deadline: Deadline)
    requires
        idle(world),
        index < world.server.objects.len() < u64::MAX,
    ensures
        ({
            let (pinned, after) = pin_run::<FakeTransport>(world, handle_of(index), deadline);
            &&& after.server == world.server
            &&& idle(after)
            &&& pinned matches Ok(pin) && pins(world, pin, index)
        }),
{
    reveal(pin_run);
    let mask = AttrMask(AttrMask::STAT);
    attributes_are_answered(world, index, mask, deadline);
    a_pin_is_adopted(world, index, mask);
}

/// What making a directory of a run answers and does.
pub(crate) proof fn a_run_directory_is_made(
    world: FakeWorld,
    pin: PinnedObjectView,
    parent: nat,
    name: Seq<u8>,
    home: Fsid,
    deadline: Deadline,
)
    requires
        stands_alone(world, home, 1),
        pins(world, pin, parent),
    ensures
        ({
            let before = world.server;
            let (made, after) = make_within_run::<FakeTransport>(world, pin, name, home, deadline);
            &&& made is Ok <==> before.objects[parent as int].kind == Nfs4Type::Directory
                && bound_in(before, parent, name) is None
            &&& made is Err ==> after.server == before && idle(after)
            &&& after.server.write_cap == before.write_cap
            &&& make_directory_run::<FakeTransport>(world, pin.handle, name, deadline) == (
                made,
                after,
            )
            &&& made matches Ok(child) ==> {
                &&& directory_made(before, after.server, (parent, name), 0o700)
                &&& pins_child(after, child, parent, name)
                &&& stands_alone(after, home, 0)
            }
        }),
{
    let before = world.server;
    let made = before.objects.len();
    let call = make_directory_call(handle_of(parent), name);
    let values = AttrValuesView { mode: Some(layout::DIRECTORY_MODE), ..no_values() };
    let op = OpView::Create { object_type: CreateType::Directory, name, attributes: values };
    a_quiet_fake_answers(world, call);
    a_handle_is_put_again(before, None, None, parent, 0);
    a_create_step_makes(before, parent, name, layout::DIRECTORY_MODE);
    let done = step(before, Some(parent), None, op, 1);
    a_handle_is_told(done.server, made, None, 2);
    assert(call.ops[0] == OpView::PutFh(handle_of(parent)) && call.ops[1] == op && call.ops[2]
        == OpView::GetFh);
    reveal_with_fuel(plain_from, 5);
    let after = FakeTransport::after(world, call, deadline);
    if let Ok(reply) = done.reply {
        let results = Seq::<ReplyView>::empty().push(ReplyView::PutFh).push(reply).push(
            ReplyView::GetFh(handle_of(made)),
        );
        assert(FakeTransport::answer(world, call, deadline)->Ok_0.results == results);
        assert forall|i: int| 0 <= i < after.server.objects.len() implies (
        #[trigger] after.server.objects[i]).identity.fsid == home by {
            if i < before.objects.len() {
                assert(same_but_names(before.objects[i], after.server.objects[i]));
                assert(before.objects[i].identity.fsid == home);
            }
        }
        an_object_is_pinned(after, made, deadline);
    }
}

/// What descending to a directory of a run finds.
proof fn a_run_directory_is_found(
    world: FakeWorld,
    pin: PinnedObjectView,
    parent: nat,
    name: Seq<u8>,
    home: Fsid,
    deadline: Deadline,
)
    requires
        stands_alone(world, home, 0),
        pins(world, pin, parent),
    ensures
        ({
            let (found, after) = descend_run::<FakeTransport>(
                world,
                pin,
                name,
                Some(home),
                deadline,
            );
            let bound = bound_in(world.server, parent, name);
            &&& after.server == world.server
            &&& idle(after)
            &&& found is Ok <==> world.server.objects[parent as int].kind == Nfs4Type::Directory
                && bound is Some && world.server.objects[bound->0 as int].kind
                == Nfs4Type::Directory
            &&& found matches Ok(child) ==> pins_child(after, child, parent, name)
        }),
{
    a_descent_finds_the_child(world, pin, parent, name, deadline);
    a_child_exists(world.server, parent, name);
}

/// A child that was pinned stays pinned while a server only grows.
proof fn a_pinned_child_stays(
    before: FakeWorld,
    now: FakeWorld,
    pin: PinnedObjectView,
    parent: nat,
    name: Seq<u8>,
)
    requires
        idle(before),
        pins_child(before, pin, parent, name),
        grown(before.server, now.server, 0o700),
    ensures
        pins_child(now, pin, parent, name),
{
    growth_keeps_a_name(before.server, now.server, parent, name, 0o700);
    a_child_exists(before.server, parent, name);
    let child = bound_in(before.server, parent, name)->0;
    assert(now.server.objects.len() >= before.server.objects.len() && same_but_names(
        before.server.objects[child as int],
        now.server.objects[child as int],
    )) by {
        reveal(grown);
    }
}

/// What resolving or making a named child of a run does.
proof fn a_named_child_is_placed(
    world: FakeWorld,
    run: PinnedObjectView,
    at: nat,
    name: Seq<u8>,
    creating: bool,
    home: Fsid,
    more: nat,
    deadline: Deadline,
)
    requires
        stands_alone(world, home, more + 1),
        pins(world, run, at),
    ensures
        ({
            let (found, after) = named_child_run::<FakeTransport>(
                world,
                run,
                name,
                creating,
                home,
                deadline,
            );
            let before = world.server;
            let directory = before.objects[at as int].kind == Nfs4Type::Directory;
            let bound = bound_in(before, at, name);
            &&& found is Ok <==> valid_component(name) && directory && if creating {
                bound is None
            } else {
                bound is Some && before.objects[bound->0 as int].kind == Nfs4Type::Directory
            }
            &&& found matches Ok(child) ==> {
                &&& pins_child(after, child, at, name)
                &&& stands_alone(after, home, more)
                &&& grown(before, after.server, 0o700)
                &&& creating ==> directory_made(before, after.server, (at, name), 0o700)
                &&& !creating ==> after.server == before
            }
            &&& found is Err ==> after.server == before && idle(after)
        }),
{
    let before = world.server;
    assert(component_of(name) is Ok <==> valid_component(name));
    assert(component_of(name) matches Ok(same) ==> same == name);
    if creating {
        a_run_directory_is_made(world, run, at, name, home, deadline);
        let (made, after) = make_within_run::<FakeTransport>(world, run, name, home, deadline);
        if made is Ok {
            a_directory_made_is_growth(before, after.server, (at, name), 0o700);
        }
    } else {
        a_run_directory_is_found(world, run, at, name, home, deadline);
        reveal(grown);
    }
}

/// The name of a run's private directory.
pub open spec fn private_dir() -> Seq<u8> {
    vstd::utf8::encode_utf8(".provider"@)
}

/// What resolving or making the private directory of a run does.
proof fn the_private_child_is_placed(
    world: FakeWorld,
    run: PinnedObjectView,
    at: nat,
    creating: bool,
    home: Fsid,
    deadline: Deadline,
)
    requires
        stands_alone(world, home, 1),
        pins(world, run, at),
        world.server.objects[at as int].kind == Nfs4Type::Directory,
        valid_component(private_dir()),
    ensures
        ({
            let (found, after) = private_child_run::<FakeTransport>(
                world,
                run,
                creating,
                home,
                deadline,
            );
            let before = world.server;
            let bound = bound_in(before, at, private_dir());
            &&& found is Ok <==> (bound is None || !creating
                && before.objects[bound->0 as int].kind == Nfs4Type::Directory)
            &&& found matches Ok(private) ==> {
                &&& idle(after)
                &&& grown(before, after.server, 0o700)
                &&& !creating ==> after.server == before
                &&& private is Some <==> creating || bound is Some
                &&& private matches Some(pin) ==> pins_child(after, pin, at, private_dir())
            }
        }),
{
    let before = world.server;
    let name = private_dir();
    a_named_child_is_placed(world, run, at, name, creating, home, 0, deadline);
    if !creating {
        reveal(grown);
        a_child_exists(before, at, name);
        a_lookup_is_answered(world, at, name, AttrMask(AttrMask::STAT), deadline);
        if let Some(child) = bound_in(before, at, name) {
            a_pin_is_adopted(world, child, AttrMask(AttrMask::STAT));
        }
    }
}

/// The directory runs are kept in, from the export root on.
pub open spec fn runs_directory(server: ServerModel, config: NfsUserspaceConfigView) -> Option<nat> {
    match followed(server, 0, split_path(config.export), 0) {
        None => None,
        Some(export) => followed(server, export, split_path(config.run_parent), 0),
    }
}

/// Whether every name of a relative path can go on the wire.
pub open spec fn goes_on_the_wire(path: Seq<u8>) -> bool {
    forall|i: int|
        0 <= i < split_path(path).len() ==> valid_component(#[trigger] split_path(path)[i])
}

/// Resolving the directory runs are kept in finds it, and changes nothing.
proof fn the_runs_directory_is_found(
    world: FakeWorld,
    config: NfsUserspaceConfigView,
    home: Fsid,
    deadline: Deadline,
)
    requires
        stands_alone(world, home, 0),
    ensures
        ({
            let (placed, after) = run_parent_run::<FakeTransport>(world, config, deadline);
            let runs = runs_directory(world.server, config);
            &&& after.server == world.server
            &&& idle(after)
            &&& placed matches Ok((parent, filesystem)) ==> runs is Some && pins(
                world,
                parent,
                runs->0,
            ) && filesystem == home
            &&& runs is Some && goes_on_the_wire(config.export) && goes_on_the_wire(
                config.run_parent,
            ) ==> placed is Ok
        }),
{
    a_quiet_fake_answers(world, root_call());
    a_root_is_put(world.server);
    a_handle_is_told(world.server, 0, None, 1);
    reveal_with_fuel(plain_from, 4);
    let rooted = FakeTransport::after(world, root_call(), deadline);
    assert(root_call().ops[0] == OpView::PutRootFh && root_call().ops[1] == OpView::GetFh);
    assert(root_answer(FakeTransport::answer(world, root_call(), deadline)) == Ok::<
        Seq<u8>,
        crate::error::FacadeErrorView,
    >(handle_of(0)));
    an_object_is_pinned(rooted, 0, deadline);
    let (pinned, at_root) = pin_run::<FakeTransport>(rooted, handle_of(0), deadline);
    let names = split_path(config.export);
    if goes_on_the_wire(config.export) {
        nothing_is_refused(names, 0);
    }
    if goes_on_the_wire(config.run_parent) {
        nothing_is_refused(split_path(config.run_parent), 0);
    }
    a_walk_follows(at_root, None, pinned->Ok_0, 0, names, 0, deadline);
    let (exported, at_export) = crate::anchor::walk_run::<FakeTransport>(
        at_root,
        pinned->Ok_0,
        names,
        0,
        None,
        deadline,
    );
    if let Ok(export) = exported {
        let index = followed(world.server, 0, names, 0)->0;
        a_walk_follows(
            at_export,
            Some(home),
            export,
            index,
            split_path(config.run_parent),
            0,
            deadline,
        );
    }
}

proof fn a_root_is_put(server: ServerModel)
    ensures
        ({
            let put = step(server, None, None, OpView::PutRootFh, 0);
            &&& put.reply == Ok::<ReplyView, crate::error::ProtocolError>(ReplyView::PutRootFh)
            &&& put.server == server
            &&& put.current == Some(0nat)
            &&& put.saved is None
        }),
{
    reveal(step);
}

/// What resolving or making the directory of a run does.
proof fn the_run_is_placed(
    world: FakeWorld,
    parent: PinnedObjectView,
    runs: nat,
    run_id: RunId,
    creating: bool,
    home: Fsid,
    deadline: Deadline,
)
    requires
        stands_alone(world, home, 4),
        pins(world, parent, runs),
    ensures
        ({
            let name = run_name(run_id);
            let (found, after) = run_directory_run::<FakeTransport>(
                world,
                parent,
                run_id,
                creating,
                home,
                deadline,
            );
            let before = world.server;
            let bound = bound_in(before, runs, name);
            &&& found is Ok <==> valid_component(name) && before.objects[runs as int].kind
                == Nfs4Type::Directory && if creating {
                bound is None
            } else {
                bound is Some && before.objects[bound->0 as int].kind == Nfs4Type::Directory
            }
            &&& found matches Ok(run) ==> {
                &&& pins_child(after, run, runs, name)
                &&& stands_alone(after, home, 3)
                &&& grown(before, after.server, 0o700)
                &&& creating ==> directory_made(before, after.server, (runs, name), 0o700)
                &&& !creating ==> after.server == before
            }
        }),
{
    let name = run_name(run_id);
    let before = world.server;
    assert(component_of(name) is Ok <==> valid_component(name));
    assert(component_of(name) matches Ok(same) ==> same == name);
    if creating {
        a_descent_finds_the_child(world, parent, runs, name, deadline);
        let probed = descend_any_run::<FakeTransport>(world, parent, name, deadline).1;
        a_run_directory_is_made(probed, parent, runs, name, home, deadline);
        let (made, after) = make_within_run::<FakeTransport>(probed, parent, name, home, deadline);
        if made is Ok {
            a_directory_made_is_growth(before, after.server, (runs, name), 0o700);
        }
    } else {
        a_run_directory_is_found(world, parent, runs, name, home, deadline);
        reveal(grown);
    }
}

proof fn the_private_name_is_valid()
    ensures
        valid_component(private_dir()),
        private_dir() == vstd::utf8::encode_utf8(layout::PRIVATE_DIR@),
{
    reveal_strlit(".provider");
    let text = ".provider"@;
    assert(vstd::utf8::is_ascii_chars(text));
    vstd::utf8::is_ascii_chars_encode_utf8(text);
    let name = private_dir();
    assert(name.len() == 9);
    assert(text[0] as u8 == name[0] && text[1] as u8 == name[1]);
    assert forall|i: int| 0 <= i < name.len() implies name[i] != 47u8 && name[i] != 0u8 by {
        assert(text[i] as u8 == name[i]);
    }
}

/// Whether the anchors of a run are the run's own directory, below the one runs are
/// kept in, and its children under the names the configuration gives them. Only a run
/// that was there may lack its private directory.
pub open spec fn anchored_at(
    world: FakeWorld,
    anchors: crate::anchor::RunAnchorsView,
    config: NfsUserspaceConfigView,
    run: nat,
) -> bool {
    &&& pins(world, anchors.run.pin, run)
    &&& pins_child(world, anchors.root.pin, run, config.root_anchor)
    &&& pins_child(world, anchors.control.pin, run, config.control_anchor)
    &&& match anchors.private {
        Some(private) => pins_child(world, private.pin, run, private_dir()) && private.kind
            == AnchorKind::Private,
        None => bound_in(world.server, run, private_dir()) is None,
    }
    &&& anchors.run.kind == AnchorKind::Run
    &&& anchors.root.kind == AnchorKind::Root
    &&& anchors.control.kind == AnchorKind::Control
}

/// Whether a name is bound to a directory.
pub open spec fn holds_directory(server: ServerModel, parent: nat, name: Seq<u8>) -> bool {
    bound_in(server, parent, name) matches Some(child) && server.objects[child as int].kind
        == Nfs4Type::Directory
}

/// Whether a directory holds what the children of a run need: the root and the control
/// directory, and nothing but a directory under the private name.
pub open spec fn holds_children(
    server: ServerModel,
    run: nat,
    config: NfsUserspaceConfigView,
) -> bool {
    &&& holds_directory(server, run, config.root_anchor)
    &&& holds_directory(server, run, config.control_anchor)
    &&& bound_in(server, run, private_dir()) is None || holds_directory(
        server,
        run,
        private_dir(),
    )
}

/// Whether the children of a run are given three different names.
pub open spec fn names_apart(config: NfsUserspaceConfigView) -> bool {
    config.root_anchor != config.control_anchor && config.root_anchor != private_dir()
        && config.control_anchor != private_dir()
}

proof fn the_children_are_placed(
    world: FakeWorld,
    config: NfsUserspaceConfigView,
    run: PinnedObjectView,
    at: nat,
    creating: bool,
    home: Fsid,
    deadline: Deadline,
)
    requires
        stands_alone(world, home, 3),
        pins(world, run, at),
        run.kind == Nfs4Type::Directory,
        creating ==> world.server.objects[at as int].children.len() == 0,
    ensures
        ({
            let (answer, after) = run_children_run::<FakeTransport>(
                world,
                config,
                run,
                creating,
                home,
                deadline,
            );
            let before = world.server;
            &&& answer matches Ok(anchors) ==> {
                &&& anchored_at(after, anchors, config, at)
                &&& anchors.filesystem == home
                &&& grown(before, after.server, 0o700)
                &&& !creating ==> after.server == before
                &&& creating ==> anchors.private is Some
            }
            &&& valid_component(config.root_anchor) && valid_component(config.control_anchor) && (
            if creating {
                names_apart(config)
            } else {
                holds_children(before, at, config)
            }) ==> answer is Ok
        }),
{
    let before = world.server;
    the_private_name_is_valid();
    a_named_child_is_placed(world, run, at, config.root_anchor, creating, home, 2, deadline);
    let (rooted, at_root) = named_child_run::<FakeTransport>(
        world,
        run,
        config.root_anchor,
        creating,
        home,
        deadline,
    );
    if creating {
        assert(bound_in(before, at, config.root_anchor) is None);
    }
    if let Ok(root) = rooted {
        a_pin_stays(world, at_root, run, at);
        a_named_child_is_placed(
            at_root,
            run,
            at,
            config.control_anchor,
            creating,
            home,
            1,
            deadline,
        );
        let (controlled, at_control) = named_child_run::<FakeTransport>(
            at_root,
            run,
            config.control_anchor,
            creating,
            home,
            deadline,
        );
        if creating && names_apart(config) {
            assert(bound_in(at_root.server, at, config.control_anchor) == bound_in(
                before,
                at,
                config.control_anchor,
            ));
            assert(bound_in(before, at, config.control_anchor) is None);
        }
        if let Ok(control) = controlled {
            a_pin_stays(at_root, at_control, run, at);
            a_pinned_child_stays(at_root, at_control, root, at, config.root_anchor);
            growth_adds_up(before, at_root.server, at_control.server, 0o700);
            the_private_child_is_placed(at_control, run, at, creating, home, deadline);
            if creating && names_apart(config) {
                assert(bound_in(at_root.server, at, private_dir()) == bound_in(
                    before,
                    at,
                    private_dir(),
                ));
                assert(bound_in(at_control.server, at, private_dir()) == bound_in(
                    at_root.server,
                    at,
                    private_dir(),
                ));
                assert(bound_in(before, at, private_dir()) is None);
            }
            let (hidden, after) = private_child_run::<FakeTransport>(
                at_control,
                run,
                creating,
                home,
                deadline,
            );
            if hidden is Ok {
                a_pin_stays(at_control, after, run, at);
                a_pinned_child_stays(at_control, after, root, at, config.root_anchor);
                a_pinned_child_stays(at_control, after, control, at, config.control_anchor);
                growth_adds_up(before, at_control.server, after.server, 0o700);
            }
        }
    }
}

proof fn a_pin_stays(before: FakeWorld, now: FakeWorld, pin: PinnedObjectView, index: nat)
    requires
        pins(before, pin, index),
        grown(before.server, now.server, 0o700),
    ensures
        pins(now, pin, index),
{
    reveal(grown);
    assert(same_but_names(
        before.server.objects[index as int],
        now.server.objects[index as int],
    ));
}

/// Opening a run that succeeds anchors it where the configuration says: at the run's own
/// directory, under its name in the directory runs are kept in, with the root, control
/// and private directories below it. Creating makes those directories, and them only,
/// where the run's name was free; opening an existing run changes nothing. Both succeed
/// wherever every name can go on the wire and what has to be there is there.
pub proof fn an_opened_run_is_anchored_where_it_is_kept(
    world: FakeWorld,
    config: NfsUserspaceConfigView,
    run_id: RunId,
    intent: OpenRunIntent,
    home: Fsid,
    deadline: Deadline,
)
    requires
        stands_alone(world, home, 4),
    ensures
        ({
            let (answer, after) = open_anchors_run::<FakeTransport>(
                world,
                config,
                run_id,
                intent,
                deadline,
            );
            let before = world.server;
            let now = after.server;
            let creating = intent == OpenRunIntent::CreateNew;
            let name = run_name(run_id);
            let runs = runs_directory(before, config);
            let there = bound_in(before, runs->0, name);
            &&& answer matches Ok(anchors) ==> {
                &&& runs is Some
                &&& bound_in(now, runs->0, name) matches Some(run) && anchored_at(
                    after,
                    anchors,
                    config,
                    run,
                )
                &&& anchors.filesystem == home
                &&& creating ==> there is None && anchors.private is Some && grown(
                    before,
                    now,
                    0o700,
                )
                &&& !creating ==> there is Some && now == before
            }
            &&& goes_on_the_wire(config.export) && goes_on_the_wire(config.run_parent)
                && valid_component(name) && valid_component(config.root_anchor)
                && valid_component(config.control_anchor) && runs is Some
                && before.objects[runs->0 as int].kind == Nfs4Type::Directory && (if creating {
                there is None && names_apart(config)
            } else {
                holds_directory(before, runs->0, name) && holds_children(
                    before,
                    there->0,
                    config,
                )
            }) ==> answer is Ok
        }),
{
    reveal(open_anchors_run);
    let before = world.server;
    let creating = intent == OpenRunIntent::CreateNew;
    let name = run_name(run_id);
    the_runs_directory_is_found(world, config, home, deadline);
    let (placed, at_parent) = run_parent_run::<FakeTransport>(world, config, deadline);
    if let Ok((parent, filesystem)) = placed {
        let runs = runs_directory(before, config)->0;
        the_run_is_placed(at_parent, parent, runs, run_id, creating, home, deadline);
        a_child_exists(before, runs, name);
        let (found, at_run) = run_directory_run::<FakeTransport>(
            at_parent,
            parent,
            run_id,
            creating,
            home,
            deadline,
        );
        if let Ok(run) = found {
            let at = bound_in(at_run.server, runs, name)->0;
            the_children_are_placed(at_run, config, run, at, creating, home, deadline);
            let (answer, after) = run_children_run::<FakeTransport>(
                at_run,
                config,
                run,
                creating,
                home,
                deadline,
            );
            if answer is Ok {
                growth_keeps_a_name(at_run.server, after.server, runs, name, 0o700);
                growth_adds_up(before, at_run.server, after.server, 0o700);
            }
        }
    }
}

} // verus!
