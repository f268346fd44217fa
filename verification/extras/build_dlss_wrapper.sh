#!/bin/sh
# Compiles dlss_wrapper.c into libdlss_helpers.a, for linking with the NGX static library.
#
#   DLSS_SDK=/path/to/sdk [VULKAN_SDK=/path] build_dlss_wrapper.sh OUT_DIR
#
# Set DLSS_RUNTIME_DIR to OUT_DIR when building or running the application: the runtime
# library is copied there.
set -eu

out=${1:?usage: build_dlss_wrapper.sh OUT_DIR}
sdk=${DLSS_SDK:?set DLSS_SDK to the root of the DLSS SDK}
here=$(dirname "$0")

if [ ! -d "$sdk/include" ]; then
    echo "$sdk/include not found" >&2
    exit 1
fi
set -- -I "$sdk/include"
if [ -n "${VULKAN_SDK:-}" ]; then
    set -- "$@" -I "$VULKAN_SDK/include"
fi

mkdir -p "$out"
"${CC:-cc}" -O2 -fPIC "$@" -c "$here/dlss_wrapper.c" -o "$out/dlss_wrapper.o"
"${AR:-ar}" rcs "$out/libdlss_helpers.a" "$out/dlss_wrapper.o"

runtime=$sdk/lib/Linux_x86_64/rel/libnvidia-ngx-dlssd.so.310.6.0
if [ -f "$runtime" ]; then
    cp "$runtime" "$out/"
else
    echo "warning: no DLSS runtime library at $runtime" >&2
fi
echo "link with: -L$out -ldlss_helpers -L$sdk/lib/Linux_x86_64 -lnvsdk_ngx"
