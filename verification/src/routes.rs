//! The paths under which the service is reached.

use vstd::prelude::*;

use crate::decode::option_view;
use crate::text::concat;
use crate::url::{query_of_url, url_of_text, with_query_of, Url};
use crate::uuid::{hyphenated, Uuid};

verus! {

/// An identifier that a request needs and that the client was not given.
#[derive(Clone, Copy, Debug, PartialEq, Eq, Structural)]
pub enum MissingId {
    ApplicationIdMissing,
    GatewayIdMissing,
}

impl MissingId {
    /// The sentence that reports this error.
    pub fn message(&self) -> (out: &'static str)
        ensures
            out@ == match self {
                MissingId::ApplicationIdMissing => "Application id is missing"@,
                MissingId::GatewayIdMissing => "Gateway id is missing"@,
            },
    {
        match self {
            MissingId::ApplicationIdMissing => "Application id is missing",
            MissingId::GatewayIdMissing => "Gateway id is missing",
        }
    }
}

/// One piece of a path.
#[derive(Clone, Copy, Debug, PartialEq, Eq)]
pub enum Part {
    /// Text that stands as it is.
    Text(&'static str),
    /// The identifier of the application that the client works for.
    Application,
    /// The identifier of the gateway that the client works for.
    Gateway,
    /// The identifier of the thing that is asked for.
    Id(Uuid),
}

/// A place of the service.
#[derive(Clone, Copy, Debug, PartialEq, Eq)]
pub enum Route {
    /// One application, by its identifier.
    App(Uuid),
    /// The applications of an organization.
    OrgApps(Uuid),
    /// All organizations.
    Orgs,
    /// Logging in.
    Login,
    /// The cameras of the application.
    Cameras,
    /// One camera.
    Camera(Uuid),
    /// The streams of a camera.
    CameraStreams(Uuid),
    /// The status of a camera.
    CameraStatus(Uuid),
    /// The statuses of the cameras of the gateway.
    CamerasStatuses,
    /// The statuses of the cameras of the gateway, where gateways go as devices.
    DeviceCamerasStatuses,
    /// Taking a snapshot of a camera.
    CameraSnapshot(Uuid),
    /// The file of the snapshot of a camera.
    CameraSnapshotFileId(Uuid),
    /// The deployments of the application.
    Deployments,
    /// One deployment.
    Deployment(Uuid),
    /// The pipeline of a deployment.
    DeploymentDefinition(Uuid),
    /// Starting a deployment.
    StartDeployment(Uuid),
    /// Stopping a deployment.
    StopDeployment(Uuid),
    /// The answer to a discovery request.
    DiscoveryRequest(Uuid),
    /// The answer to a discovery request, where gateways go as devices.
    DeviceDiscoveryRequest(Uuid),
    /// The events of the application.
    Events,
    /// The error events of the application.
    ErrorEvents,
    /// The files of the application.
    Files,
    /// One file.
    File(Uuid),
    /// Whether a file has reached cloud storage.
    FileCloudStatus(Uuid),
    /// The gateways of an application, by its identifier.
    Gateways(Uuid),
    /// The gateways of an application, where gateways go as devices.
    Devices(Uuid),
    /// The gateway itself.
    Gateway,
    /// The cameras linked to the gateway.
    LinkedCameras,
    /// The local address of the gateway.
    GatewayIpLocal,
    /// The external address of the gateway.
    GatewayIpExt,
    /// The local address of the gateway, where gateways go as devices.
    DeviceIpLocal,
    /// The external address of the gateway, where gateways go as devices.
    DeviceIpExt,
    /// The video source metrics of a gateway, by its identifier.
    VideoSourceMetrics(Uuid),
    /// One model of the application.
    Model(Uuid),
    /// One model of the marketplace.
    MarketplaceModel(Uuid),
    /// The streams of the application.
    Streams,
    /// One stream.
    Stream(Uuid),
    /// Taking a snapshot of a stream.
    StreamSnapshot(Uuid),
    /// The file of the snapshot of a stream.
    StreamSnapshotFileId(Uuid),
}

/// The path made of `parts`, with the identifiers spelled with hyphens. The
/// first identifier that is needed and not there decides the failure.
pub open spec fn path_of(parts: Seq<Part>, application_id: Option<Uuid>, gateway_id: Option<Uuid>)
    -> Result<Seq<char>, MissingId>
    decreases parts.len(),
{
    if parts.len() == 0 {
        Ok(Seq::empty())
    } else {
        match path_of(parts.drop_last(), application_id, gateway_id) {
            Err(e) => Err(e),
            Ok(head) => match parts.last() {
                Part::Text(text) => Ok(head + text@),
                Part::Application => match application_id {
                    Some(id) => Ok(head + hyphenated(id.value)),
                    None => Err(MissingId::ApplicationIdMissing),
                },
                Part::Gateway => match gateway_id {
                    Some(id) => Ok(head + hyphenated(id.value)),
                    None => Err(MissingId::GatewayIdMissing),
                },
                Part::Id(id) => Ok(head + hyphenated(id.value)),
            },
        }
    }
}

/// A failure among the first parts is the failure of the whole path.
pub proof fn lemma_path_failure(
    parts: Seq<Part>,
    application_id: Option<Uuid>,
    gateway_id: Option<Uuid>,
    n: int,
)
    requires
        0 <= n <= parts.len(),
        path_of(parts.take(n), application_id, gateway_id) is Err,
    ensures
        path_of(parts, application_id, gateway_id) == path_of(
            parts.take(n),
            application_id,
            gateway_id,
        ),
    decreases parts.len() - n,
{
    if n == parts.len() {
        assert(parts.take(n) =~= parts);
    } else {
        assert(parts.take(n + 1).drop_last() =~= parts.take(n));
        lemma_path_failure(parts, application_id, gateway_id, n + 1);
    }
}

/// Writes the path made of `parts`.
pub fn render(parts: &Vec<Part>, application_id: Option<Uuid>, gateway_id: Option<Uuid>) -> (out:
    Result<String, MissingId>)
    ensures
        match out {
            Ok(path) => path_of(parts@, application_id, gateway_id) == Ok::<Seq<char>, MissingId>(
                path@,
            ),
            Err(e) => path_of(parts@, application_id, gateway_id) == Err::<Seq<char>, MissingId>(e),
        },
{
    let mut path = String::new();
    let mut i: usize = 0;
    while i < parts.len()
        invariant
            i <= parts@.len(),
            path_of(parts@.take(i as int), application_id, gateway_id) == Ok::<
                Seq<char>,
                MissingId,
            >(path@),
        decreases parts@.len() - i,
    {
        proof {
            assert(parts@.take(i + 1).drop_last() =~= parts@.take(i as int));
        }
        match &parts[i] {
            Part::Text(text) => {
                path.append(text);
            },
            Part::Application => match application_id {
                Some(id) => {
                    path.append(id.to_hyphenated_string().as_str());
                },
                None => {
                    proof {
                        lemma_path_failure(parts@, application_id, gateway_id, i + 1);
                    }
                    return Err(MissingId::ApplicationIdMissing);
                },
            },
            Part::Gateway => match gateway_id {
                Some(id) => {
                    path.append(id.to_hyphenated_string().as_str());
                },
                None => {
                    proof {
                        lemma_path_failure(parts@, application_id, gateway_id, i + 1);
                    }
                    return Err(MissingId::GatewayIdMissing);
                },
            },
            Part::Id(id) => {
                path.append(id.to_hyphenated_string().as_str());
            },
        }
        i = i + 1;
    }
    assert(parts@.take(i as int) =~= parts@);
    Ok(path)
}

impl Route {
    /// The pieces of the path of this place.
    pub open spec fn pieces(self) -> Seq<Part> {
        match self {
            Route::App(id) => seq![Part::Text("/v1/apps/"), Part::Id(id)],
            Route::OrgApps(id) => seq![Part::Text("/v1/orgs/"), Part::Id(id), Part::Text("/apps")],
            Route::Orgs => seq![Part::Text("/v1/orgs")],
            Route::Login => seq![Part::Text("/v1/internal/auth/login")],
            Route::Cameras => seq![
                Part::Text("/v1/apps/"),
                Part::Application,
                Part::Text("/cameras"),
            ],
            Route::Camera(id) => seq![
                Part::Text("/v1/apps/"),
                Part::Application,
                Part::Text("/cameras/"),
                Part::Id(id),
            ],
            Route::CameraStreams(id) => seq![
                Part::Text("/v1/apps/"),
                Part::Application,
                Part::Text("/cameras/"),
                Part::Id(id),
                Part::Text("/streams"),
            ],
            Route::CameraStatus(id) => seq![
                Part::Text("/v1/apps/"),
                Part::Application,
                Part::Text("/cameras/"),
                Part::Id(id),
                Part::Text("/status"),
            ],
            Route::CamerasStatuses => seq![
                Part::Text("/v1/apps/"),
                Part::Application,
                Part::Text("/gateways/"),
                Part::Gateway,
                Part::Text("/cameras_statuses"),
            ],
            Route::DeviceCamerasStatuses => seq![
                Part::Text("/v1/apps/"),
                Part::Application,
                Part::Text("/devices/"),
                Part::Gateway,
                Part::Text("/cameras_statuses"),
            ],
            Route::CameraSnapshot(id) => seq![
                Part::Text("/v1/apps/"),
                Part::Application,
                Part::Text("/cameras/"),
                Part::Id(id),
                Part::Text("/snapshot"),
            ],
            Route::CameraSnapshotFileId(id) => seq![
                Part::Text("/v1/apps/"),
                Part::Application,
                Part::Text("/cameras/"),
                Part::Id(id),
                Part::Text("/snapshot_file_id"),
            ],
            Route::Deployments => seq![
                Part::Text("/v1/apps/"),
                Part::Application,
                Part::Text("/deployments"),
            ],
            Route::Deployment(id) => seq![
                Part::Text("/v1/apps/"),
                Part::Application,
                Part::Text("/deployments/"),
                Part::Id(id),
            ],
            Route::DeploymentDefinition(id) => seq![
                Part::Text("/v1/apps/"),
                Part::Application,
                Part::Text("/deployments/"),
                Part::Id(id),
                Part::Text("/definition"),
            ],
            Route::StartDeployment(id) => seq![
                Part::Text("/v1/apps/"),
                Part::Application,
                Part::Text("/deployments/"),
                Part::Id(id),
                Part::Text("/start"),
            ],
            Route::StopDeployment(id) => seq![
                Part::Text("/v1/apps/"),
                Part::Application,
                Part::Text("/deployments/"),
                Part::Id(id),
                Part::Text("/stop"),
            ],
            Route::DiscoveryRequest(id) => seq![
                Part::Text("/v1/apps/"),
                Part::Application,
                Part::Text("/gateways/"),
                Part::Gateway,
                Part::Text("/discovery_request/"),
                Part::Id(id),
            ],
            Route::DeviceDiscoveryRequest(id) => seq![
                Part::Text("/v1/apps/"),
                Part::Application,
                Part::Text("/devices/"),
                Part::Gateway,
                Part::Text("/discovery_request/"),
                Part::Id(id),
            ],
            Route::Events => seq![
                Part::Text("/v1/apps/"),
                Part::Application,
                Part::Text("/events"),
            ],
            Route::ErrorEvents => seq![
                Part::Text("/v1/internal/apps/"),
                Part::Application,
                Part::Text("/events/error_events"),
            ],
            Route::Files => seq![Part::Text("/v1/apps/"), Part::Application, Part::Text("/files")],
            Route::File(id) => seq![
                Part::Text("/v1/apps/"),
                Part::Application,
                Part::Text("/files/"),
                Part::Id(id),
            ],
            Route::FileCloudStatus(id) => seq![
                Part::Text("/v1/apps/"),
                Part::Application,
                Part::Text("/files/"),
                Part::Id(id),
                Part::Text("/cloud_status"),
            ],
            Route::Gateways(id) => seq![
                Part::Text("/v1/apps/"),
                Part::Id(id),
                Part::Text("/gateways"),
            ],
            Route::Devices(id) => seq![
                Part::Text("/v1/apps/"),
                Part::Id(id),
                Part::Text("/devices"),
            ],
            Route::Gateway => seq![
                Part::Text("/v1/apps/"),
                Part::Application,
                Part::Text("/gateways/"),
                Part::Gateway,
            ],
            Route::LinkedCameras => seq![
                Part::Text("/v1/apps/"),
                Part::Application,
                Part::Text("/gateways/"),
                Part::Gateway,
                Part::Text("/linked_cameras"),
            ],
            Route::GatewayIpLocal => seq![
                Part::Text("/v1/apps/"),
                Part::Application,
                Part::Text("/gateways/"),
                Part::Gateway,
                Part::Text("/ip_local"),
            ],
            Route::GatewayIpExt => seq![
                Part::Text("/v1/apps/"),
                Part::Application,
                Part::Text("/gateways/"),
                Part::Gateway,
                Part::Text("/ip_ext"),
            ],
            Route::DeviceIpLocal => seq![
                Part::Text("/v1/apps/"),
                Part::Application,
                Part::Text("/devices/"),
                Part::Gateway,
                Part::Text("/ip_local"),
            ],
            Route::DeviceIpExt => seq![
                Part::Text("/v1/apps/"),
                Part::Application,
                Part::Text("/devices/"),
                Part::Gateway,
                Part::Text("/ip_ext"),
            ],
            Route::VideoSourceMetrics(id) => seq![
                Part::Text("/metrics/v1/gateways/"),
                Part::Id(id),
                Part::Text("/video_source_metrics"),
            ],
            Route::Model(id) => seq![
                Part::Text("/v1/apps/"),
                Part::Application,
                Part::Text("/models/"),
                Part::Id(id),
            ],
            Route::MarketplaceModel(id) => seq![
                Part::Text("/v1/marketplace/models/"),
                Part::Id(id),
            ],
            Route::Streams => seq![
                Part::Text("/v1/apps/"),
                Part::Application,
                Part::Text("/streams"),
            ],
            Route::Stream(id) => seq![
                Part::Text("/v1/apps/"),
                Part::Application,
                Part::Text("/streams/"),
                Part::Id(id),
            ],
            Route::StreamSnapshot(id) => seq![
                Part::Text("/v1/apps/"),
                Part::Application,
                Part::Text("/streams/"),
                Part::Id(id),
                Part::Text("/snapshot"),
            ],
            Route::StreamSnapshotFileId(id) => seq![
                Part::Text("/v1/apps/"),
                Part::Application,
                Part::Text("/streams/"),
                Part::Id(id),
                Part::Text("/snapshot_file_id"),
            ],
        }
    }

    /// The pieces of the path of this place.
    pub fn parts(&self) -> (out: Vec<Part>)
        ensures
            out@ == self.pieces(),
    {
        match self {
            Route::App(id) => vec![Part::Text("/v1/apps/"), Part::Id(*id)],
            Route::OrgApps(id) => vec![Part::Text("/v1/orgs/"), Part::Id(*id), Part::Text("/apps")],
            Route::Orgs => vec![Part::Text("/v1/orgs")],
            Route::Login => vec![Part::Text("/v1/internal/auth/login")],
            Route::Cameras => vec![
                Part::Text("/v1/apps/"),
                Part::Application,
                Part::Text("/cameras"),
            ],
            Route::Camera(id) => vec![
                Part::Text("/v1/apps/"),
                Part::Application,
                Part::Text("/cameras/"),
                Part::Id(*id),
            ],
            Route::CameraStreams(id) => vec![
                Part::Text("/v1/apps/"),
                Part::Application,
                Part::Text("/cameras/"),
                Part::Id(*id),
                Part::Text("/streams"),
            ],
            Route::CameraStatus(id) => vec![
                Part::Text("/v1/apps/"),
                Part::Application,
                Part::Text("/cameras/"),
                Part::Id(*id),
                Part::Text("/status"),
            ],
            Route::CamerasStatuses => vec![
                Part::Text("/v1/apps/"),
                Part::Application,
                Part::Text("/gateways/"),
                Part::Gateway,
                Part::Text("/cameras_statuses"),
            ],
            Route::DeviceCamerasStatuses => vec![
                Part::Text("/v1/apps/"),
                Part::Application,
                Part::Text("/devices/"),
                Part::Gateway,
                Part::Text("/cameras_statuses"),
            ],
            Route::CameraSnapshot(id) => vec![
                Part::Text("/v1/apps/"),
                Part::Application,
                Part::Text("/cameras/"),
                Part::Id(*id),
                Part::Text("/snapshot"),
            ],
            Route::CameraSnapshotFileId(id) => vec![
                Part::Text("/v1/apps/"),
                Part::Application,
                Part::Text("/cameras/"),
                Part::Id(*id),
                Part::Text("/snapshot_file_id"),
            ],
            Route::Deployments => vec![
                Part::Text("/v1/apps/"),
                Part::Application,
                Part::Text("/deployments"),
            ],
            Route::Deployment(id) => vec![
                Part::Text("/v1/apps/"),
                Part::Application,
                Part::Text("/deployments/"),
                Part::Id(*id),
            ],
            Route::DeploymentDefinition(id) => vec![
                Part::Text("/v1/apps/"),
                Part::Application,
                Part::Text("/deployments/"),
                Part::Id(*id),
                Part::Text("/definition"),
            ],
            Route::StartDeployment(id) => vec![
                Part::Text("/v1/apps/"),
                Part::Application,
                Part::Text("/deployments/"),
                Part::Id(*id),
                Part::Text("/start"),
            ],
            Route::StopDeployment(id) => vec![
                Part::Text("/v1/apps/"),
                Part::Application,
                Part::Text("/deployments/"),
                Part::Id(*id),
                Part::Text("/stop"),
            ],
            Route::DiscoveryRequest(id) => vec![
                Part::Text("/v1/apps/"),
                Part::Application,
                Part::Text("/gateways/"),
                Part::Gateway,
                Part::Text("/discovery_request/"),
                Part::Id(*id),
            ],
            Route::DeviceDiscoveryRequest(id) => vec![
                Part::Text("/v1/apps/"),
                Part::Application,
                Part::Text("/devices/"),
                Part::Gateway,
                Part::Text("/discovery_request/"),
                Part::Id(*id),
            ],
            Route::Events => vec![
                Part::Text("/v1/apps/"),
                Part::Application,
                Part::Text("/events"),
            ],
            Route::ErrorEvents => vec![
                Part::Text("/v1/internal/apps/"),
                Part::Application,
                Part::Text("/events/error_events"),
            ],
            Route::Files => vec![Part::Text("/v1/apps/"), Part::Application, Part::Text("/files")],
            Route::File(id) => vec![
                Part::Text("/v1/apps/"),
                Part::Application,
                Part::Text("/files/"),
                Part::Id(*id),
            ],
            Route::FileCloudStatus(id) => vec![
                Part::Text("/v1/apps/"),
                Part::Application,
                Part::Text("/files/"),
                Part::Id(*id),
                Part::Text("/cloud_status"),
            ],
            Route::Gateways(id) => vec![
                Part::Text("/v1/apps/"),
                Part::Id(*id),
                Part::Text("/gateways"),
            ],
            Route::Devices(id) => vec![
                Part::Text("/v1/apps/"),
                Part::Id(*id),
                Part::Text("/devices"),
            ],
            Route::Gateway => vec![
                Part::Text("/v1/apps/"),
                Part::Application,
                Part::Text("/gateways/"),
                Part::Gateway,
            ],
            Route::LinkedCameras => vec![
                Part::Text("/v1/apps/"),
                Part::Application,
                Part::Text("/gateways/"),
                Part::Gateway,
                Part::Text("/linked_cameras"),
            ],
            Route::GatewayIpLocal => vec![
                Part::Text("/v1/apps/"),
                Part::Application,
                Part::Text("/gateways/"),
                Part::Gateway,
                Part::Text("/ip_local"),
            ],
            Route::GatewayIpExt => vec![
                Part::Text("/v1/apps/"),
                Part::Application,
                Part::Text("/gateways/"),
                Part::Gateway,
                Part::Text("/ip_ext"),
            ],
            Route::DeviceIpLocal => vec![
                Part::Text("/v1/apps/"),
                Part::Application,
                Part::Text("/devices/"),
                Part::Gateway,
                Part::Text("/ip_local"),
            ],
            Route::DeviceIpExt => vec![
                Part::Text("/v1/apps/"),
                Part::Application,
                Part::Text("/devices/"),
                Part::Gateway,
                Part::Text("/ip_ext"),
            ],
            Route::VideoSourceMetrics(id) => vec![
                Part::Text("/metrics/v1/gateways/"),
                Part::Id(*id),
                Part::Text("/video_source_metrics"),
            ],
            Route::Model(id) => vec![
                Part::Text("/v1/apps/"),
                Part::Application,
                Part::Text("/models/"),
                Part::Id(*id),
            ],
            Route::MarketplaceModel(id) => vec![
                Part::Text("/v1/marketplace/models/"),
                Part::Id(*id),
            ],
            Route::Streams => vec![
                Part::Text("/v1/apps/"),
                Part::Application,
                Part::Text("/streams"),
            ],
            Route::Stream(id) => vec![
                Part::Text("/v1/apps/"),
                Part::Application,
                Part::Text("/streams/"),
                Part::Id(*id),
            ],
            Route::StreamSnapshot(id) => vec![
                Part::Text("/v1/apps/"),
                Part::Application,
                Part::Text("/streams/"),
                Part::Id(*id),
                Part::Text("/snapshot"),
            ],
            Route::StreamSnapshotFileId(id) => vec![
                Part::Text("/v1/apps/"),
                Part::Application,
                Part::Text("/streams/"),
                Part::Id(*id),
                Part::Text("/snapshot_file_id"),
            ],
        }
    }

    /// The path of this place for a client that works for this application
    /// and this gateway. Where the path needs one of the two and it is not
    /// there, that is the failure; the application is asked for first.
    pub fn path(&self, application_id: Option<Uuid>, gateway_id: Option<Uuid>) -> (out: Result<
        String,
        MissingId,
    >)
        ensures
            match out {
                Ok(path) => path_of(self.pieces(), application_id, gateway_id) == Ok::<
                    Seq<char>,
                    MissingId,
                >(path@),
                Err(e) => path_of(self.pieces(), application_id, gateway_id) == Err::<
                    Seq<char>,
                    MissingId,
                >(e),
            },
    {
        let parts = self.parts();
        render(&parts, application_id, gateway_id)
    }
}

/// The query of a request: what the URL brings, an ampersand and what is
/// added; or just what is added where the URL brings none.
pub open spec fn merged_query(existing: Option<Seq<char>>, extra: Seq<char>) -> Seq<char> {
    match existing {
        Some(q) => q + "&"@ + extra,
        None => extra,
    }
}

/// Joins the query that a URL brings with one that is added.
pub fn merge_query(existing: Option<&str>, extra: &str) -> (out: String)
    ensures
        out@ == merged_query(option_view(existing), extra@),
{
    match existing {
        Some(q) => {
            let head = concat(q, "&");
            concat(head.as_str(), extra)
        },
        None => extra.to_owned(),
    }
}

/// The value of the header that authorizes a request with `token`.
pub fn bearer(token: &str) -> (out: String)
    ensures
        out@ == "Bearer "@ + token@,
{
    concat("Bearer ", token)
}

/// The URL of a request: that of the base and the path in a row, with the
/// query joined to the one that it brings. `None` where base and path in a
/// row are no URL, and where URL and query are too long to be joined.
pub open spec fn request_url_text(base: Seq<char>, path: Seq<char>, query: Option<Seq<char>>)
    -> Option<Seq<char>> {
    match url_of_text(base + path) {
        None => None,
        Some(url) => match query {
            None => Some(url),
            Some(q) => {
                let full = merged_query(query_of_url(url), q);
                if crate::url::query_fits(url, full) {
                    Some(with_query_of(url, full))
                } else {
                    None
                }
            },
        },
    }
}

/// The URL of a request to `path` under `base`, with `query` added.
pub fn request_url(base: &str, path: &str, query: Option<&str>) -> (out: Option<Url>)
    ensures
        option_view(out) == request_url_text(base@, path@, option_view(query)),
{
    let text = concat(base, path);
    match Url::parse(text.as_str()) {
        None => None,
        Some(url) => match query {
            None => Some(url),
            Some(q) => {
                let existing = url.query();
                let full = match &existing {
                    Some(e) => merge_query(Some(e.as_str()), q),
                    None => merge_query(None, q),
                };
                url.with_query(full.as_str())
            },
        },
    }
}

} // verus!
