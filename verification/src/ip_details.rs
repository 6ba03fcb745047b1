//! Local-network address details with a QR rendering of the URL.
//!
//! The machine's address comes from the `local-ip-address` crate and
//! the QR renderings from the `qrcode` crate, each behind a trusted
//! wrapper; everything assembled from them — the URL, the address
//! text, the description — is built and verified here.

use vstd::prelude::*;
use vstd::string::StringExecFns;

use crate::text::{spec_dec, spec_bool_str, dec_u16, bool_str};

verus! {

#[verifier::external_type_specification]
#[verifier::external_body]
pub struct ExDynamicImage(image::DynamicImage);

#[verifier::external_type_specification]
#[verifier::external_body]
pub struct ExQrError(qrcode::types::QrError);

#[verifier::external_type_specification]
#[verifier::external_body]
pub struct ExLocalIpError(local_ip_address::Error);

/// The SVG document that the QR renderer produces for a given text.
pub uninterp spec fn qr_svg_of(data: Seq<char>) -> Seq<char>;

/// Whether a text fits a QR code: the encoder accepts or refuses a
/// given text deterministically, by its length against the fixed QR
/// capacity.
pub uninterp spec fn qr_encodable(data: Seq<char>) -> bool;

/// Relies on `local_ip_address::local_ip`: the machine's local IPv4
/// address, rendered in its usual dotted notation. The result depends
/// on the machine, so nothing is promised of the text.
#[verifier::external_body]
fn local_ip_text() -> (r: Result<String, local_ip_address::Error>) {
    match local_ip_address::local_ip() {
        Ok(ip) => Ok(format!("{}", ip)),
        Err(e) => Err(e),
    }
}

/// Relies on `qrcode::QrCode::new` and its renderers: encoding is a
/// pure function of the text, succeeding exactly when the text fits
/// the QR capacity (named `qr_encodable`); the SVG rendering is named
/// `qr_svg_of`, and the image rendering is carried opaquely.
#[verifier::external_body]
fn qr_images(data: &str) -> (r: Result<(String, image::DynamicImage), qrcode::types::QrError>)
    ensures
        r is Ok <==> qr_encodable(data@),
        r matches Ok(p) ==> p.0@ == qr_svg_of(data@),
{
    let code = qrcode::QrCode::new(data)?;
    let svg_xml = code.render::<qrcode::render::svg::Color>().build();
    let png = code.render::<image::Rgba<u8>>().build().into();
    Ok((svg_xml, png))
}

/// Why no details could be produced.
#[derive(Copy, Clone, Debug, PartialEq, Eq, Structural)]
pub enum DetailsError {
    /// The machine's local address could not be resolved.
    NoLocalIp,
    /// The URL could not be encoded as a QR code.
    QrUnencodable,
}

/// The details of a served address: the URL assembled from the
/// address, port and path, and its QR renderings.
pub struct IpDetails {
    pub ip: String,
    pub port: u16,
    pub ip_string: String,
    pub path: String,
    pub png: image::DynamicImage,
    pub svg_xml: String,
    pub is_https: bool,
    pub url: String,
}

/// The URL scheme for the flag.
pub open spec fn spec_scheme(is_https: bool) -> Seq<char> {
    if is_https {
        "https"@
    } else {
        "http"@
    }
}

/// The served URL: scheme, address, port and path.
pub open spec fn spec_url(ip: Seq<char>, port: u16, path: Seq<char>, is_https: bool) -> Seq<char> {
    spec_scheme(is_https) + "://"@ + ip + ":"@ + spec_dec(port as int) + "/"@ + path
}

/// The address and port as one text.
pub open spec fn spec_ip_string(ip: Seq<char>, port: u16) -> Seq<char> {
    ip + ":"@ + spec_dec(port as int)
}

/// Assembles the served URL.
pub fn build_url(ip: &str, port: u16, path: &str, is_https: bool) -> (r: String)
    ensures
        r@ == spec_url(ip@, port, path@, is_https),
{
    let mut out = if is_https {
        "https".to_owned()
    } else {
        "http".to_owned()
    };
    out.append("://");
    out.append(ip);
    out.append(":");
    let p = dec_u16(port);
    out.append(p.as_str());
    out.append("/");
    out.append(path);
    proof {
        assert(out@ =~= spec_url(ip@, port, path@, is_https));
    }
    out
}

impl IpDetails {
    /// The fields in play, one per line, as the details present
    /// themselves in text.
    pub open spec fn display_view(&self) -> Seq<char> {
        "ip_details:\n"@ + "ip: "@ + self.ip@ + "\n"@ + "port: "@ + spec_dec(self.port as int)
            + "\n"@ + "ip_string: "@ + self.ip_string@ + "\n"@ + "path: "@ + self.path@ + "\n"@
            + "is_https: "@ + spec_bool_str(self.is_https) + "\n"@ + "url: "@ + self.url@ + "\n"@
    }

    /// Renders the details as text.
    pub fn display_string(&self) -> (r: String)
        ensures
            r@ == self.display_view(),
    {
        let mut out = "ip_details:\n".to_owned();
        out.append("ip: ");
        out.append(self.ip.as_str());
        out.append("\n");
        out.append("port: ");
        let p = dec_u16(self.port);
        out.append(p.as_str());
        out.append("\n");
        out.append("ip_string: ");
        out.append(self.ip_string.as_str());
        out.append("\n");
        out.append("path: ");
        out.append(self.path.as_str());
        out.append("\n");
        out.append("is_https: ");
        out.append(bool_str(self.is_https));
        out.append("\n");
        out.append("url: ");
        out.append(self.url.as_str());
        out.append("\n");
        proof {
            assert(out@ =~= self.display_view());
        }
        out
    }
}

/// Builds the details for a given address text: the URL and address
/// text are assembled here, the QR renderings come from the trusted
/// wrapper. Succeeds exactly when the URL fits a QR code, and fails
/// with `QrUnencodable` otherwise.
pub fn details_for_ip(ip: String, port: u16, path: &str, is_https: bool) -> (r: Result<
    IpDetails,
    DetailsError,
>)
    ensures
        r is Ok <==> qr_encodable(spec_url(ip@, port, path@, is_https)),
        r matches Ok(d) ==> {
            &&& d.ip@ == ip@
            &&& d.port == port
            &&& d.path@ == path@
            &&& d.is_https == is_https
            &&& d.url@ == spec_url(ip@, port, path@, is_https)
            &&& d.ip_string@ == spec_ip_string(ip@, port)
            &&& d.svg_xml@ == qr_svg_of(d.url@)
        },
        r is Err ==> r == Err::<IpDetails, DetailsError>(DetailsError::QrUnencodable),
{
    let url = build_url(ip.as_str(), port, path, is_https);
    let (svg_xml, png) = match qr_images(url.as_str()) {
        Ok(p) => p,
        Err(_) => {
            return Err(DetailsError::QrUnencodable);
        },
    };
    let mut ip_string = ip.clone();
    ip_string.append(":");
    let p = dec_u16(port);
    ip_string.append(p.as_str());
    proof {
        assert(ip_string@ =~= spec_ip_string(ip@, port));
    }
    Ok(
        IpDetails {
            ip,
            url,
            ip_string,
            port,
            path: path.to_owned(),
            png,
            svg_xml,
            is_https,
        },
    )
}

/// Resolves the machine's local address and builds the details for
/// it. The address is machine-dependent, so the contract pins every
/// field relative to the address text that was resolved.
pub fn get_details(port: u16, path: &str, is_https: bool) -> (r: Result<IpDetails, DetailsError>)
    ensures
        r matches Ok(d) ==> {
            &&& d.port == port
            &&& d.path@ == path@
            &&& d.is_https == is_https
            &&& d.url@ == spec_url(d.ip@, port, path@, is_https)
            &&& d.ip_string@ == spec_ip_string(d.ip@, port)
            &&& d.svg_xml@ == qr_svg_of(d.url@)
        },
        r is Err ==> (r == Err::<IpDetails, DetailsError>(DetailsError::NoLocalIp) || r == Err::<
            IpDetails,
            DetailsError,
        >(DetailsError::QrUnencodable)),
{
    match local_ip_text() {
        Ok(ip) => details_for_ip(ip, port, path, is_https),
        Err(_) => Err(DetailsError::NoLocalIp),
    }
}

} // verus!
