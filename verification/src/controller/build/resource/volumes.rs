//! Putting volumes into pods and mounts into containers.
//!
//! Every volume of a pod has its own name, and every mount of a container its own path. Adding
//! the same volume or mount again changes nothing; adding another one with the name or path of
//! one that is there fails.

use crate::contents::{Copied, SameContents};
use crate::kubernetes::{
    ContainerView, PodContainer, PodContainerView, VectorSidecarView, Volume, VolumeMount,
    VolumeMountView, VolumeSource, VolumeSourceView, VolumeView,
};
use crate::list::{add_item, empty_list};
use vstd::prelude::*;

verus! {

/// Whether a pod has a volume with this name.
pub open spec fn has_volume(volumes: Seq<VolumeView>, name: Seq<char>) -> bool {
    exists|i: int| 0 <= i < volumes.len() && (#[trigger] volumes[i]).name == name
}

/// The volumes with one more; nothing where another volume has its name.
pub open spec fn put_volume(volumes: Seq<VolumeView>, volume: VolumeView) -> Option<
    Seq<VolumeView>,
> {
    if !has_volume(volumes, volume.name) {
        Some(volumes.push(volume))
    } else if volumes.contains(volume) {
        Some(volumes)
    } else {
        None
    }
}

/// The volumes with some more; nothing where two different ones have one name.
pub open spec fn put_volumes(volumes: Seq<VolumeView>, more: Seq<VolumeView>) -> Option<
    Seq<VolumeView>,
>
    decreases more.len(),
{
    if more.len() == 0 {
        Some(volumes)
    } else {
        match put_volumes(volumes, more.drop_last()) {
            Some(some) => put_volume(some, more.last()),
            None => None,
        }
    }
}

/// Whether a container has a mount at this path.
pub open spec fn has_mount(mounts: Seq<VolumeMountView>, path: Seq<char>) -> bool {
    exists|i: int| 0 <= i < mounts.len() && (#[trigger] mounts[i]).mount_path == path
}

/// The mounts with one more; nothing where another mount has its path.
pub open spec fn put_mount(mounts: Seq<VolumeMountView>, mount: VolumeMountView) -> Option<
    Seq<VolumeMountView>,
> {
    if !has_mount(mounts, mount.mount_path) {
        Some(mounts.push(mount))
    } else if mounts.contains(mount) {
        Some(mounts)
    } else {
        None
    }
}

/// The mounts with some more; nothing where two different ones have one path.
pub open spec fn put_mounts(mounts: Seq<VolumeMountView>, more: Seq<VolumeMountView>) -> Option<
    Seq<VolumeMountView>,
>
    decreases more.len(),
{
    if more.len() == 0 {
        Some(mounts)
    } else {
        match put_mounts(mounts, more.drop_last()) {
            Some(some) => put_mount(some, more.last()),
            None => None,
        }
    }
}

/// Adds a volume to a pod, and says whether that was possible.
pub fn add_volume(volumes: &mut Vec<Volume>, volume: Volume) -> (added: bool)
    ensures
        match put_volume(old(volumes).deep_view(), volume.deep_view()) {
            Some(all) => added && final(volumes).deep_view() == all,
            None => !added && final(volumes).deep_view() == old(volumes).deep_view(),
        },
{
    let ghost before = volumes.deep_view();
    let ghost value = volume.deep_view();
    let mut named = false;
    let mut i: usize = 0;
    while i < volumes.len()
        invariant
            i <= volumes.len(),
            before == volumes.deep_view(),
            value == volume.deep_view(),
            named == exists|j: int| 0 <= j < i && (#[trigger] before[j]).name == value.name,
            forall|j: int| 0 <= j < i ==> #[trigger] before[j] != value,
        decreases volumes.len() - i,
    {
        proof {
            assert(before[i as int] == volumes[i as int].deep_view());
        }
        if volumes[i].same(&volume) {
            proof {
                assert(before.contains(value));
                assert(has_volume(before, value.name));
            }
            return true;
        }
        if volumes[i].name.same(&volume.name) {
            named = true;
        }
        i = i + 1;
    }
    if named {
        return false;
    }
    add_item(volumes, volume);
    true
}

/// Adds volumes to a pod one after the other, and says whether that was possible.
pub fn add_volumes(volumes: &mut Vec<Volume>, more: &Vec<Volume>) -> (added: bool)
    ensures
        match put_volumes(old(volumes).deep_view(), more.deep_view()) {
            Some(all) => added && final(volumes).deep_view() == all,
            None => !added,
        },
{
    let ghost before = volumes.deep_view();
    let ghost all = more.deep_view();
    let mut i: usize = 0;
    proof {
        assert(all.take(0) =~= Seq::empty());
    }
    while i < more.len()
        invariant
            i <= more.len(),
            all == more.deep_view(),
            before == old(volumes).deep_view(),
            put_volumes(before, all.take(i as int)) == Some(volumes.deep_view()),
        decreases more.len() - i,
    {
        let ok = add_volume(volumes, more[i].copied());
        proof {
            let next = all.take(i + 1);
            assert(next.drop_last() =~= all.take(i as int));
            assert(next.last() == more[i as int].deep_view());
        }
        if !ok {
            proof {
                lemma_volume_clash(before, all, i + 1);
            }
            return false;
        }
        i = i + 1;
    }
    proof {
        assert(all.take(i as int) =~= all);
    }
    true
}

/// Once two volumes clash, no further volume mends it.
proof fn lemma_volume_clash(volumes: Seq<VolumeView>, more: Seq<VolumeView>, at: int)
    requires
        0 <= at <= more.len(),
        put_volumes(volumes, more.take(at)).is_none(),
    ensures
        put_volumes(volumes, more).is_none(),
    decreases more.len() - at,
{
    if at == more.len() {
        assert(more.take(at) =~= more);
    } else {
        assert(more.take(at + 1).drop_last() =~= more.take(at));
        lemma_volume_clash(volumes, more, at + 1);
    }
}

/// Adds a mount to a container, and says whether that was possible.
pub fn add_mount(mounts: &mut Vec<VolumeMount>, mount: VolumeMount) -> (added: bool)
    ensures
        match put_mount(old(mounts).deep_view(), mount.deep_view()) {
            Some(all) => added && final(mounts).deep_view() == all,
            None => !added && final(mounts).deep_view() == old(mounts).deep_view(),
        },
{
    let ghost before = mounts.deep_view();
    let ghost value = mount.deep_view();
    let mut at_path = false;
    let mut i: usize = 0;
    while i < mounts.len()
        invariant
            i <= mounts.len(),
            before == mounts.deep_view(),
            value == mount.deep_view(),
            at_path == exists|j: int|
                0 <= j < i && (#[trigger] before[j]).mount_path == value.mount_path,
            forall|j: int| 0 <= j < i ==> #[trigger] before[j] != value,
        decreases mounts.len() - i,
    {
        proof {
            assert(before[i as int] == mounts[i as int].deep_view());
        }
        if mounts[i].same(&mount) {
            proof {
                assert(before.contains(value));
                assert(has_mount(before, value.mount_path));
            }
            return true;
        }
        if mounts[i].mount_path.same(&mount.mount_path) {
            at_path = true;
        }
        i = i + 1;
    }
    if at_path {
        return false;
    }
    add_item(mounts, mount);
    true
}

/// Adds mounts to a container one after the other, and says whether that was possible.
pub fn add_mounts(mounts: &mut Vec<VolumeMount>, more: &Vec<VolumeMount>) -> (added: bool)
    ensures
        match put_mounts(old(mounts).deep_view(), more.deep_view()) {
            Some(all) => added && final(mounts).deep_view() == all,
            None => !added,
        },
{
    let ghost before = mounts.deep_view();
    let ghost all = more.deep_view();
    let mut i: usize = 0;
    proof {
        assert(all.take(0) =~= Seq::empty());
    }
    while i < more.len()
        invariant
            i <= more.len(),
            all == more.deep_view(),
            before == old(mounts).deep_view(),
            put_mounts(before, all.take(i as int)) == Some(mounts.deep_view()),
        decreases more.len() - i,
    {
        let ok = add_mount(mounts, more[i].copied());
        proof {
            let next = all.take(i + 1);
            assert(next.drop_last() =~= all.take(i as int));
            assert(next.last() == more[i as int].deep_view());
        }
        if !ok {
            proof {
                lemma_mount_clash(before, all, i + 1);
            }
            return false;
        }
        i = i + 1;
    }
    proof {
        assert(all.take(i as int) =~= all);
    }
    true
}

/// Once two mounts clash, no further mount mends it.
proof fn lemma_mount_clash(mounts: Seq<VolumeMountView>, more: Seq<VolumeMountView>, at: int)
    requires
        0 <= at <= more.len(),
        put_mounts(mounts, more.take(at)).is_none(),
    ensures
        put_mounts(mounts, more).is_none(),
    decreases more.len() - at,
{
    if at == more.len() {
        assert(more.take(at) =~= more);
    } else {
        assert(more.take(at + 1).drop_last() =~= more.take(at));
        lemma_mount_clash(mounts, more, at + 1);
    }
}

/// Putting volumes keeps those that are there and adds the new ones.
pub proof fn lemma_put_volumes(some: Seq<VolumeView>, more: Seq<VolumeView>, volume: VolumeView)
    requires
        put_volumes(some, more).is_some(),
        some.contains(volume) || more.contains(volume),
    ensures
        put_volumes(some, more).unwrap().contains(volume),
    decreases more.len(),
{
    if more.len() > 0 {
        let front = put_volumes(some, more.drop_last()).unwrap();
        let all = put_volumes(some, more).unwrap();
        if some.contains(volume) || more.drop_last().contains(volume) {
            lemma_put_volumes(some, more.drop_last(), volume);
            let i = choose|i: int| 0 <= i < front.len() && front[i] == volume;
            assert(all[i] == volume);
        } else {
            let i = choose|i: int| 0 <= i < more.len() && more[i] == volume;
            assert(i == more.len() - 1) by {
                if i < more.len() - 1 {
                    assert(more.drop_last()[i] == volume);
                }
            }
            if !has_volume(front, volume.name) {
                assert(all[front.len() as int] == volume);
            }
        }
    }
}

/// Putting mounts keeps those that are there and adds the new ones.
pub proof fn lemma_put_mounts(
    some: Seq<VolumeMountView>,
    more: Seq<VolumeMountView>,
    mount: VolumeMountView,
)
    requires
        put_mounts(some, more).is_some(),
        some.contains(mount) || more.contains(mount),
    ensures
        put_mounts(some, more).unwrap().contains(mount),
    decreases more.len(),
{
    if more.len() > 0 {
        let front = put_mounts(some, more.drop_last()).unwrap();
        let all = put_mounts(some, more).unwrap();
        if some.contains(mount) || more.drop_last().contains(mount) {
            lemma_put_mounts(some, more.drop_last(), mount);
            let i = choose|i: int| 0 <= i < front.len() && front[i] == mount;
            assert(all[i] == mount);
        } else {
            let i = choose|i: int| 0 <= i < more.len() && more[i] == mount;
            assert(i == more.len() - 1) by {
                if i < more.len() - 1 {
                    assert(more.drop_last()[i] == mount);
                }
            }
            if !has_mount(front, mount.mount_path) {
                assert(all[front.len() as int] == mount);
            }
        }
    }
}

/// The mounts of a container, besides those that its manifest names.
pub open spec fn mounts_of(container: PodContainerView) -> Seq<VolumeMountView> {
    match container {
        PodContainerView::Own { container } => container.volume_mounts,
        PodContainerView::Vector { sidecar } => sidecar.extra_mounts,
        PodContainerView::Manifest { extra_mounts, .. } => extra_mounts,
    }
}

/// A container with other mounts.
pub open spec fn remounted(
    container: PodContainerView,
    mounts: Seq<VolumeMountView>,
) -> PodContainerView {
    match container {
        PodContainerView::Own { container } => PodContainerView::Own {
            container: ContainerView { volume_mounts: mounts, ..container },
        },
        PodContainerView::Vector { sidecar } => PodContainerView::Vector {
            sidecar: VectorSidecarView { extra_mounts: mounts, ..sidecar },
        },
        PodContainerView::Manifest { name, json, .. } => PodContainerView::Manifest {
            name,
            json,
            extra_mounts: mounts,
        },
    }
}

/// Containers with some more mounts in each; nothing where two different ones have one path.
pub open spec fn mounted_in_all(
    containers: Seq<PodContainerView>,
    more: Seq<VolumeMountView>,
) -> Option<Seq<PodContainerView>>
    decreases containers.len(),
{
    if containers.len() == 0 {
        Some(Seq::empty())
    } else {
        match (
            mounted_in_all(containers.drop_last(), more),
            put_mounts(mounts_of(containers.last()), more),
        ) {
            (Some(some), Some(mounts)) => Some(some.push(remounted(containers.last(), mounts))),
            _ => None,
        }
    }
}

/// Adds mounts to a container.
fn mount_in(container: &PodContainer, more: &Vec<VolumeMount>) -> (result: Option<PodContainer>)
    ensures
        match put_mounts(mounts_of(container.deep_view()), more.deep_view()) {
            Some(mounts) => result.is_some() && result.unwrap().deep_view() == remounted(
                container.deep_view(),
                mounts,
            ),
            None => result.is_none(),
        },
{
    let mut copy = container.copied();
    let added = match &mut copy {
        PodContainer::Own { container } => add_mounts(&mut container.volume_mounts, more),
        PodContainer::Vector { sidecar } => add_mounts(&mut sidecar.extra_mounts, more),
        PodContainer::Manifest { extra_mounts, .. } => add_mounts(extra_mounts, more),
    };
    if added {
        Some(copy)
    } else {
        None
    }
}

/// Adds mounts to each of some containers; nothing where that is not possible.
pub fn mount_in_all(containers: &Vec<PodContainer>, more: &Vec<VolumeMount>) -> (result: Option<
    Vec<PodContainer>,
>)
    ensures
        result.deep_view() == mounted_in_all(containers.deep_view(), more.deep_view()),
{
    let ghost all = containers.deep_view();
    let mut mounted: Vec<PodContainer> = empty_list();
    let mut i: usize = 0;
    proof {
        assert(all.take(0) =~= Seq::empty());
    }
    while i < containers.len()
        invariant
            i <= containers.len(),
            all == containers.deep_view(),
            mounted_in_all(all.take(i as int), more.deep_view()) == Some(mounted.deep_view()),
        decreases containers.len() - i,
    {
        proof {
            let next = all.take(i + 1);
            assert(next.drop_last() =~= all.take(i as int));
            assert(next.last() == containers[i as int].deep_view());
        }
        match mount_in(&containers[i], more) {
            Some(container) => {
                add_item(&mut mounted, container);
            },
            None => {
                proof {
                    lemma_no_room(all, more.deep_view(), i + 1);
                }
                return None;
            },
        }
        i = i + 1;
    }
    proof {
        assert(all.take(i as int) =~= all);
    }
    Some(mounted)
}

/// Once mounts do not fit into a container, no further container mends it.
proof fn lemma_no_room(containers: Seq<PodContainerView>, more: Seq<VolumeMountView>, at: int)
    requires
        0 <= at <= containers.len(),
        mounted_in_all(containers.take(at), more).is_none(),
    ensures
        mounted_in_all(containers, more).is_none(),
    decreases containers.len() - at,
{
    if at == containers.len() {
        assert(containers.take(at) =~= containers);
    } else {
        assert(containers.take(at + 1).drop_last() =~= containers.take(at));
        lemma_no_room(containers, more, at + 1);
    }
}

/// Mounts that are put into containers are in each of them.
pub proof fn lemma_mounted_in_all(
    containers: Seq<PodContainerView>,
    more: Seq<VolumeMountView>,
    container: PodContainerView,
    mount: VolumeMountView,
)
    requires
        mounted_in_all(containers, more).is_some(),
        mounted_in_all(containers, more).unwrap().contains(container),
        more.contains(mount),
    ensures
        mounts_of(container).contains(mount),
    decreases containers.len(),
{
    let all = mounted_in_all(containers, more).unwrap();
    let i = choose|i: int| 0 <= i < all.len() && all[i] == container;
    if containers.len() > 0 {
        let some = mounted_in_all(containers.drop_last(), more).unwrap();
        if i < some.len() {
            assert(some[i] == container);
            lemma_mounted_in_all(containers.drop_last(), more, container, mount);
        } else {
            lemma_put_mounts(mounts_of(containers.last()), more, mount);
        }
    }
}

/// A volume made of a ConfigMap.
pub open spec fn config_map_volume(name: Seq<char>, config_map: Seq<char>) -> VolumeView {
    VolumeView { name, source: VolumeSourceView::ConfigMap { name: config_map } }
}

/// A volume that is empty when the pod starts.
pub open spec fn empty_volume(name: Seq<char>, size_limit: Option<Seq<char>>) -> VolumeView {
    VolumeView { name, source: VolumeSourceView::EmptyDir { size_limit } }
}

/// A mount of a whole volume.
pub open spec fn whole_mount(name: Seq<char>, mount_path: Seq<char>) -> VolumeMountView {
    VolumeMountView { name, mount_path, sub_path: None }
}

/// A volume made of a ConfigMap.
pub fn volume_of_config_map(name: &str, config_map: &str) -> (volume: Volume)
    ensures
        volume.deep_view() == config_map_volume(name@, config_map@),
{
    Volume {
        name: name.to_owned(),
        source: VolumeSource::ConfigMap { name: config_map.to_owned() },
    }
}

/// A volume that is empty when the pod starts.
pub fn empty_dir_volume(name: &str, size_limit: Option<String>) -> (volume: Volume)
    ensures
        volume.deep_view() == empty_volume(name@, size_limit.deep_view()),
{
    Volume { name: name.to_owned(), source: VolumeSource::EmptyDir { size_limit } }
}

/// A mount of a whole volume.
pub fn mount(name: &str, mount_path: &str) -> (mount: VolumeMount)
    ensures
        mount.deep_view() == whole_mount(name@, mount_path@),
{
    VolumeMount {
        name: name.to_owned(),
        mount_path: mount_path.to_owned(),
        sub_path: None,
    }
}

/// Whether all volumes of a pod have different names.
pub open spec fn distinct_names(volumes: Seq<VolumeView>) -> bool {
    forall|i: int, j: int|
        0 <= i < j < volumes.len() ==> (#[trigger] volumes[i]).name != (#[trigger] volumes[j]).name
}

/// Whatever volumes are added, the volumes of a pod keep different names, and those that were
/// there stay in their places.
pub proof fn law_volume_names_stay_distinct(volumes: Seq<VolumeView>, more: Seq<VolumeView>)
    requires
        distinct_names(volumes),
    ensures
        put_volumes(volumes, more) matches Some(all) ==> distinct_names(all)
            && volumes.is_prefix_of(all),
    decreases more.len(),
{
    if more.len() > 0 {
        law_volume_names_stay_distinct(volumes, more.drop_last());
        if let Some(some) = put_volumes(volumes, more.drop_last()) {
            if let Some(all) = put_volume(some, more.last()) {
                assert(volumes =~= all.subrange(0, volumes.len() as int)) by {
                    assert(volumes =~= some.subrange(0, volumes.len() as int));
                    assert forall|i: int| 0 <= i < volumes.len() implies volumes[i] == all[i] by {
                        assert(volumes[i] == some.subrange(0, volumes.len() as int)[i]);
                    }
                }
            }
        }
    } else {
        assert(volumes =~= volumes.subrange(0, volumes.len() as int));
    }
}

/// A volume is refused exactly where another one has its name but not its contents; one that is
/// already there is not added again. The same holds of mounts and their paths.
pub proof fn law_clashes_are_refused(
    volumes: Seq<VolumeView>,
    volume: VolumeView,
    mounts: Seq<VolumeMountView>,
    mount: VolumeMountView,
)
    ensures
        ({
            let named = exists|i: int|
                0 <= i < volumes.len() && (#[trigger] volumes[i]).name == volume.name;
            let after = put_volume(volumes, volume);
            &&& after.is_none() <==> named && !volumes.contains(volume)
            &&& volumes.contains(volume) ==> after == Some(volumes)
            &&& !named ==> after == Some(volumes.push(volume))
        }),
        ({
            let taken = exists|i: int|
                0 <= i < mounts.len() && (#[trigger] mounts[i]).mount_path == mount.mount_path;
            let after = put_mount(mounts, mount);
            &&& after.is_none() <==> taken && !mounts.contains(mount)
            &&& mounts.contains(mount) ==> after == Some(mounts)
            &&& !taken ==> after == Some(mounts.push(mount))
        }),
{
    if volumes.contains(volume) {
        let i = choose|i: int| 0 <= i < volumes.len() && volumes[i] == volume;
        assert(volumes[i].name == volume.name);
    }
    if mounts.contains(mount) {
        let i = choose|i: int| 0 <= i < mounts.len() && mounts[i] == mount;
        assert(mounts[i].mount_path == mount.mount_path);
    }
}

} // verus!
